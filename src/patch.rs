use vstd::prelude::*;
use vstd::string::StringSliceAdditionalSpecFns;
use crate::codec::{content_of, decode_content, encode_content, stores};

verus! {

/// `content` with `value` written at byte `pos`: the content is first
/// extended with zero bytes up to `pos + value.len()` where it is shorter,
/// then the range `[pos, pos + value.len())` is overwritten with `value`.
pub open spec fn patched(content: Seq<u8>, value: Seq<u8>, pos: int) -> Seq<u8> {
    let end = pos + value.len();
    let len = if end > content.len() { end } else { content.len() as int };
    Seq::new(
        len as nat,
        |i: int|
            if pos <= i < end {
                value[i - pos]
            } else if i < content.len() {
                content[i]
            } else {
                0u8
            },
    )
}

/// Writes `value` into `content` at byte `pos`, zero-extending the content
/// where it ends before `pos + value.len()`.
pub fn patch_content(content: Vec<u8>, value: &[u8], pos: usize) -> (r: Vec<u8>)
    requires
        pos + value@.len() <= usize::MAX,
    ensures
        r@ == patched(content@, value@, pos as int),
{
    let end: usize = pos + value.len();
    let mut out = content;
    while out.len() < end
        invariant
            end == pos + value@.len(),
            content@.len() <= out@.len() <= if end > content@.len() { end as int } else { content@.len() as int },
            forall|i: int| 0 <= i < content@.len() ==> out@[i] == content@[i],
            forall|i: int| content@.len() <= i < out@.len() ==> out@[i] == 0u8,
        decreases end - out.len(),
    {
        out.push(0u8);
    }
    let mut k: usize = 0;
    while k < value.len()
        invariant
            end == pos + value@.len(),
            k <= value@.len(),
            out@.len() == (if end > content@.len() { end as int } else { content@.len() as int }),
            forall|i: int|
                0 <= i < out@.len() ==> out@[i] == (if pos <= i < pos + k {
                    value@[i - pos]
                } else if i < content@.len() {
                    content@[i]
                } else {
                    0u8
                }),
        decreases value@.len() - k,
    {
        out.set(pos + k, value[k]);
        k = k + 1;
    }
    assert(out@ =~= patched(content@, value@, pos as int));
    out
}

/// Patches the content held by a file's stored bytes: decompresses it (an
/// empty file holds empty content), writes `value`'s UTF-8 bytes at `pos`,
/// and returns the bytes to store in place of the old ones.
pub fn patch_stored(stored: &[u8], value: &str, pos: u64) -> (r: Result<Vec<u8>, std::io::Error>)
    requires
        pos + value.spec_bytes().len() <= usize::MAX,
    ensures
        r is Ok <==> content_of(stored@) is Some,
        r is Ok ==> content_of(stored@) is Some && stores(
            r->Ok_0@,
            patched(content_of(stored@)->Some_0, value.spec_bytes(), pos as int),
        ),
{
    let content = decode_content(stored)?;
    let bytes = value.as_bytes();
    let updated = patch_content(content, bytes, pos as usize);
    encode_content(updated.as_slice())
}

/// Patching `value` at `pos` beyond the end of content of length `L`
/// gives content of length `pos + value.len()`: zero bytes on `[L, pos)`
/// and `value` on `[pos, pos + value.len())`, the old bytes before `L`.
pub proof fn lemma_patch_extends(content: Seq<u8>, value: Seq<u8>, pos: int)
    requires
        content.len() < pos,
    ensures
        patched(content, value, pos).len() == pos + value.len(),
        forall|i: int| 0 <= i < content.len() ==> patched(content, value, pos)[i] == content[i],
        forall|i: int| content.len() <= i < pos ==> patched(content, value, pos)[i] == 0u8,
        forall|i: int|
            pos <= i < pos + value.len() ==> patched(content, value, pos)[i] == value[i - pos],
{
}

/// Patching inside the content keeps its length and every byte outside
/// `[pos, pos + value.len())`.
pub proof fn lemma_patch_within(content: Seq<u8>, value: Seq<u8>, pos: int)
    requires
        0 <= pos,
        pos + value.len() <= content.len(),
    ensures
        patched(content, value, pos).len() == content.len(),
        forall|i: int|
            0 <= i < content.len() && !(pos <= i < pos + value.len())
                ==> patched(content, value, pos)[i] == content[i],
        forall|i: int|
            pos <= i < pos + value.len() ==> patched(content, value, pos)[i] == value[i - pos],
{
}

} // verus!
