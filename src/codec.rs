use std::io::Write;
use std::io::Read;
use flate2::Compression;
use flate2::read::GzDecoder;
use flate2::write::GzEncoder;
use vstd::prelude::*;

verus! {

#[verifier::external_type_specification]
#[verifier::external_body]
pub struct ExIoError(std::io::Error);

/// The single-member gzip stream that flate2's encoder writes for `data` at
/// the default compression level (fixed header: no name, time 0, OS 255).
pub uninterp spec fn gzip_of(data: Seq<u8>) -> Seq<u8>;

/// What flate2's single-member decoder yields for `stored`: the content of
/// its first gzip member, or `None` where `stored` is no valid stream.
pub uninterp spec fn gunzip_of(stored: Seq<u8>) -> Option<Seq<u8>>;

/// The content that stored bytes hold: an empty file holds empty content,
/// any other file holds what its gzip stream decodes to.
pub open spec fn content_of(stored: Seq<u8>) -> Option<Seq<u8>> {
    if stored.len() == 0 {
        Some(Seq::empty())
    } else {
        gunzip_of(stored)
    }
}

/// `stored` is what the write path stores for `data`: one non-empty gzip
/// stream that decodes to `data`, so that it also reads back as `data`.
pub open spec fn stores(stored: Seq<u8>, data: Seq<u8>) -> bool {
    &&& stored == gzip_of(data)
    &&& stored.len() > 0
    &&& gunzip_of(stored) == Some(data)
    &&& content_of(stored) == Some(data)
}

/// A file that `create` has just made or truncated holds no bytes, and it
/// reads as empty content.
pub proof fn lemma_created_reads_empty()
    ensures
        content_of(Seq::empty()) == Some(Seq::<u8>::empty()),
{
}

/// Relies on flate2's `write::GzEncoder` (default level) writing into a
/// `Vec` and `finish`: writing into a `Vec` never fails and the default
/// level is a valid parameter, so it succeeds; the stream is a function of
/// the data alone, starts with a ten-byte header, and decodes back to the
/// data (lossless codec).
#[verifier::external_body]
fn gzip(data: &[u8]) -> (r: Result<Vec<u8>, std::io::Error>)
    ensures
        r is Ok,
        r is Ok ==> r->Ok_0@ == gzip_of(data@),
        r is Ok ==> r->Ok_0@.len() > 0,
        r is Ok ==> gunzip_of(r->Ok_0@) == Some(data@),
{
    let mut encoder = GzEncoder::new(Vec::new(), Compression::default());
    encoder.write_all(data)?;
    encoder.finish()
}

/// Relies on flate2's `read::GzDecoder` over a byte slice and `read_to_end`:
/// it fails exactly where the bytes are no valid gzip member, and otherwise
/// yields that member's content.
#[verifier::external_body]
fn gunzip(stored: &[u8]) -> (r: Result<Vec<u8>, std::io::Error>)
    ensures
        r is Ok <==> gunzip_of(stored@) is Some,
        r is Ok ==> gunzip_of(stored@) == Some(r->Ok_0@),
{
    let mut content = Vec::new();
    GzDecoder::new(stored).read_to_end(&mut content)?;
    Ok(content)
}

/// Relies on std's `io::Error::from(io::ErrorKind)`: the error reported
/// where content would not fit in memory.
#[verifier::external_body]
pub(crate) fn out_of_memory() -> (r: std::io::Error) {
    std::io::Error::from(std::io::ErrorKind::OutOfMemory)
}

/// The read path: the content that the stored bytes of a file hold. An empty
/// file reads as empty content; a malformed stream is an error.
pub fn decode_content(stored: &[u8]) -> (r: Result<Vec<u8>, std::io::Error>)
    ensures
        r is Ok <==> content_of(stored@) is Some,
        r is Ok ==> content_of(stored@) == Some(r->Ok_0@),
{
    if stored.len() == 0 {
        Ok(Vec::new())
    } else {
        gunzip(stored)
    }
}

/// The write path: the bytes to store for `data`, one gzip stream at the
/// default level. Reading them back with `decode_content` yields `data`.
pub fn encode_content(data: &[u8]) -> (r: Result<Vec<u8>, std::io::Error>)
    ensures
        r is Ok,
        r is Ok ==> stores(r->Ok_0@, data@),
{
    gzip(data)
}

} // verus!
