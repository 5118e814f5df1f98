//! A verified reader and writer for the GDSII stream format.
//!
//! GDSII is the tag-length-value interchange format used to move
//! integrated-circuit photomask layouts between CAD tools.  The crate
//! decodes a byte stream into a structured `GDSIIModel`, encodes such a
//! model back into bytes, and proves that the two directions are exact
//! inverses on well-formed models.

pub mod bytes;
pub mod codec;
pub mod error;
pub mod laws;
pub mod model;
pub mod parser;
pub mod saver;
