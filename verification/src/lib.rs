//! Reader for NITF 2.1 containers: a segmented binary/text file format made of
//! a single primary header followed by image, graphic, text, data-extension and
//! reserved-extension segments. The primary header embeds, for every segment
//! kind, a count and a manifest of (subheader size, item size) pairs; the
//! decoder walks the byte stream once, strictly left to right, and records the
//! exact byte offset and extent of every field and every segment payload.
//!
//! [`source`] holds the byte source (an owned buffer or a read-only memory
//! map) and [`stream`] the cursor over it; [`types`] holds the fixed-width
//! field and dependent-count array primitives; [`header`] the primary header;
//! [`segment`] the header-plus-payload container with its two storage
//! strategies; [`reserved`] the self-terminating reserved-extension
//! subheader; and [`nitf`] the assembler that produces the whole container.

pub mod error;
pub mod header;
pub mod nitf;
pub mod reserved;
pub mod segment;
pub mod source;
pub mod stream;
pub mod types;

pub use nitf::read_nitf;
pub use nitf::Nitf;
