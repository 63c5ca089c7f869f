//! Gzip-compressed file contents: the byte-level logic behind a file handle
//! whose whole content is one gzip stream.
//!
//! Every operation reads the whole stored stream, works on the decompressed
//! content in memory and stores the result again as one fresh stream. The
//! filesystem itself stays with the caller: the functions here take the
//! stored bytes and hand back the bytes to store.

mod codec;
mod patch;
mod append;
mod file;

pub use codec::{content_of, decode_content, encode_content, gunzip_of, gzip_of, lemma_created_reads_empty, stores};
pub use patch::{patch_content, patch_stored, patched, lemma_patch_extends, lemma_patch_within};
pub use append::{append_content, append_stored, appended, existing_content, lemma_append_to_absent, lemma_append_twice, stored_view};
pub use file::CompressedFile;
