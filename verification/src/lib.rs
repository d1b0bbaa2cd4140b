//! Decoder for the JPEG 2000 Part 1 image format (ITU-T T.800 / ISO/IEC
//! 15444-1): the JP2 box-structured container and the JPC codestream, plus
//! the MQ arithmetic entropy coder of Annex C and the tag-tree decoder used
//! by packet headers.
//!
//! Parsing works over an in-memory byte buffer; every parser states in its
//! contract which bytes each decoded field came from.

pub mod coder;
pub mod icc;
pub mod jp2;
pub mod jpc;
pub mod reader;
pub mod tag_tree;
