//! Decoding of the header structures at the start of an ID3v2 tag: the tag
//! header and the frame header that follows it.
//!
//! Every function of this crate is verified against a contract stated over
//! mathematical models: byte sequences, integers, and a view of each type.

pub mod byte_reader;
pub mod frame;
pub mod header;
pub mod tag;
pub mod utils;
