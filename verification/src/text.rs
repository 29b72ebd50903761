//! Text helpers: comparing two strings, cutting leading bytes off one, and
//! replacing every match of a pattern.

use vstd::prelude::*;
use vstd::string::StrSliceExecFns;
use vstd::utf8::{decode_utf8, encode_utf8, encode_utf8_decode_utf8, is_char_boundary};

verus! {

/// The text of an optional string.
pub open spec fn text_of(name: Option<String>) -> Option<Seq<char>> {
    match name {
        Some(s) => Some(s@),
        None => None,
    }
}

/// The text that is left of `text` without the first `n` bytes of its UTF-8
/// encoding.
pub open spec fn without_leading_bytes(text: Seq<char>, n: int) -> Seq<char> {
    decode_utf8(encode_utf8(text).skip(n))
}

/// What `str::replace` makes of `text` when every match of `from` is
/// replaced by `to`.
pub uninterp spec fn replaced(text: Seq<char>, from: Seq<char>, to: Seq<char>) -> Seq<char>;

/// Calls `str::replace`, which builds a new string from `text` with every
/// match of `from` replaced by `to`. The result depends on the three texts
/// alone; the contract gives it its name.
#[verifier::external_body]
pub(crate) fn replace_all(text: &str, from: &str, to: &str) -> (out: String)
    ensures
        out@ == replaced(text@, from@, to@),
{
    text.replace(from, to)
}

/// Whether two strings hold the same text.
pub fn same_text(a: &str, b: &str) -> (same: bool)
    ensures
        same == (a@ == b@),
{
    let x = a.as_bytes();
    let y = b.as_bytes();
    proof {
        encode_utf8_decode_utf8(a@);
        encode_utf8_decode_utf8(b@);
    }
    if x.len() != y.len() {
        return false;
    }
    let mut i: usize = 0;
    while i < x.len()
        invariant
            i <= x@.len(),
            x@.len() == y@.len(),
            x@ == encode_utf8(a@),
            y@ == encode_utf8(b@),
            forall|j: int| 0 <= j < i ==> x@[j] == y@[j],
        decreases x@.len() - i,
    {
        if x[i] != y[i] {
            return false;
        }
        i += 1;
    }
    assert(x@ =~= y@);
    true
}

/// The part of `text` after its first `n` bytes.
pub fn skip_bytes(text: &str, n: usize) -> (rest: &str)
    requires
        is_char_boundary(encode_utf8(text@), n as int),
    ensures
        rest@ == without_leading_bytes(text@, n as int),
{
    let (_, rest) = text.split_at(n);
    proof {
        encode_utf8_decode_utf8(rest@);
        assert(encode_utf8(rest@) =~= encode_utf8(text@).skip(n as int));
    }
    rest
}

/// The UTF-8 bytes of `text` with one zero byte after them, as C reads a
/// string.
pub fn nul_terminated(text: &str) -> (bytes: Vec<u8>)
    ensures
        bytes@ == encode_utf8(text@) + seq![0u8],
{
    let mut bytes = text.as_bytes_vec();
    bytes.push(0);
    bytes
}

} // verus!
