//! Converts a set of whole-slide-imaging documents, one per resolution level,
//! into one pyramidal, tiled large-offset image container.
//!
//! The library decides: which documents are pyramid levels and in what order,
//! how source enumerations map to the container's, and what each level's
//! directory holds. Decoding the documents and encoding the container are left
//! to the caller's decoder and writer.

pub mod detect;
pub mod directory;
pub mod error;
pub mod level;
pub mod mapping;
pub mod selector;
pub mod shared_read_seek;
pub mod tags;
pub mod text;
