//! Encoder side of the CMP container used by Sega Saturn software.
//!
//! A CMP stream is a small header (unit width and original size) followed by
//! run-length coded data. This crate lays out the header and validates the
//! input handed to the run-length coder, with every contract checked by Verus.

pub mod body;
pub mod error;
pub mod header;
pub mod size;

pub use body::{compression_result, units_to_compress};
pub use error::{CompressionError, ErrorKind};
pub use header::create_header;
pub use size::Size;
