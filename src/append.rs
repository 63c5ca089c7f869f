use vstd::prelude::*;
use crate::codec::{content_of, gunzip_of, decode_content, encode_content, out_of_memory, stores};

verus! {

/// The stored bytes of a file, or `None` where no file exists.
pub open spec fn stored_view(stored: Option<&[u8]>) -> Option<Seq<u8>> {
    match stored {
        Some(s) => Some(s@),
        None => None,
    }
}

/// The content a file holds before an append: an absent file holds empty
/// content, an existing one what its stored bytes hold.
pub open spec fn existing_content(stored: Option<Seq<u8>>) -> Option<Seq<u8>> {
    match stored {
        Some(s) => content_of(s),
        None => Some(Seq::empty()),
    }
}

/// The content a file holds after `text` is appended to it, or `None`
/// where its stored bytes are no valid stream.
pub open spec fn appended(stored: Option<Seq<u8>>, text: Seq<u8>) -> Option<Seq<u8>> {
    match existing_content(stored) {
        Some(c) => Some(c + text),
        None => None,
    }
}

/// The old content followed by the new bytes.
pub fn append_content(existing: Vec<u8>, text: &[u8]) -> (r: Vec<u8>)
    requires
        existing@.len() + text@.len() <= usize::MAX,
    ensures
        r@ == existing@ + text@,
{
    let mut out = existing;
    let mut k: usize = 0;
    while k < text.len()
        invariant
            k <= text@.len(),
            out@ == existing@ + text@.subrange(0, k as int),
        decreases text@.len() - k,
    {
        out.push(text[k]);
        k = k + 1;
        assert(out@ =~= existing@ + text@.subrange(0, k as int));
    }
    assert(text@.subrange(0, text@.len() as int) =~= text@);
    out
}

/// Appends `text` to the content held by a file's stored bytes (`None`
/// where the file is absent, which holds empty content) and returns the
/// bytes to store: the whole combined content as one fresh gzip stream.
pub fn append_stored(stored: Option<&[u8]>, text: &[u8]) -> (r: Result<Vec<u8>, std::io::Error>)
    ensures
        r is Ok <==> (appended(stored_view(stored), text@) is Some
            && appended(stored_view(stored), text@)->Some_0.len() <= usize::MAX),
        r is Ok ==> appended(stored_view(stored), text@) is Some && stores(
            r->Ok_0@,
            appended(stored_view(stored), text@)->Some_0,
        ),
{
    let existing = match stored {
        Some(s) => decode_content(s)?,
        None => Vec::new(),
    };
    if existing.len() > usize::MAX - text.len() {
        return Err(out_of_memory());
    }
    let combined = append_content(existing, text);
    encode_content(combined.as_slice())
}

/// Appending `b1` and then `b2` leaves a file with the same content as one
/// append of `b1` followed by `b2`, stored as the very same gzip stream:
/// `r1` is what the first append stored, `r2` what the second stored.
pub proof fn lemma_append_twice(
    stored: Option<Seq<u8>>,
    b1: Seq<u8>,
    b2: Seq<u8>,
    r1: Seq<u8>,
    r2: Seq<u8>,
)
    requires
        appended(stored, b1) is Some,
        stores(r1, appended(stored, b1)->Some_0),
        appended(Some(r1), b2) is Some,
        stores(r2, appended(Some(r1), b2)->Some_0),
    ensures
        appended(Some(r1), b2) == appended(stored, b1 + b2),
        stores(r2, appended(stored, b1 + b2)->Some_0),
        gunzip_of(r2) == Some(existing_content(stored)->Some_0 + (b1 + b2)),
{
    let c = existing_content(stored)->Some_0;
    assert(c + b1 + b2 =~= c + (b1 + b2));
}

/// Appending to an absent file gives a file whose content is exactly the
/// appended bytes.
pub proof fn lemma_append_to_absent(text: Seq<u8>)
    ensures
        appended(None, text) == Some(text),
{
    assert(Seq::<u8>::empty() + text =~= text);
}

} // verus!
