//! The base-64 transcoding utility: whole-input encode and decode in either
//! rendering, with the decode side forgiving of surrounding whitespace.

use vstd::prelude::*;

verus! {

use crate::cli::Base64Format;
use crate::encoding::{decode64_spec, decode_std, decode_url, encode64_spec, encode_std, encode_url};
use crate::error::Error;
use vstd::slice::slice_subrange;
use vstd::utf8::encode_utf8;

/// True for the ASCII whitespace bytes that stray line endings leave around
/// pasted base-64 text.
pub open spec fn is_ws_byte(b: u8) -> bool {
    b == 32 || b == 9 || b == 10 || b == 13
}

/// The byte sequence with leading and trailing ASCII whitespace removed.
pub open spec fn trim_spec(t: Seq<u8>) -> Seq<u8>
    decreases t.len(),
{
    if t.len() == 0 {
        t
    } else if is_ws_byte(t[0]) {
        trim_spec(t.drop_first())
    } else if is_ws_byte(t.last()) {
        trim_spec(t.drop_last())
    } else {
        t
    }
}

/// Removes leading and trailing ASCII whitespace from a byte slice.
fn trim_ascii(t: &[u8]) -> (r: &[u8])
    ensures
        r@ == trim_spec(t@),
{
    let mut lo: usize = 0;
    let mut hi: usize = t.len();
    proof {
        assert(t@.subrange(0, t@.len() as int) =~= t@);
    }
    while lo < hi && (t[lo] == 32 || t[lo] == 9 || t[lo] == 10 || t[lo] == 13)
        invariant
            0 <= lo <= hi <= t@.len(),
            hi == t@.len(),
            trim_spec(t@) == trim_spec(t@.subrange(lo as int, hi as int)),
        decreases hi - lo,
    {
        proof {
            let s = t@.subrange(lo as int, hi as int);
            assert(s.drop_first() =~= t@.subrange(lo as int + 1, hi as int));
        }
        lo = lo + 1;
    }
    while hi > lo && (t[hi - 1] == 32 || t[hi - 1] == 9 || t[hi - 1] == 10 || t[hi - 1] == 13)
        invariant
            0 <= lo <= hi <= t@.len(),
            lo < hi ==> !is_ws_byte(t@[lo as int]),
            trim_spec(t@) == trim_spec(t@.subrange(lo as int, hi as int)),
        decreases hi - lo,
    {
        proof {
            let s = t@.subrange(lo as int, hi as int);
            assert(s.drop_last() =~= t@.subrange(lo as int, hi as int - 1));
        }
        hi = hi - 1;
    }
    let r = slice_subrange(t, lo, hi);
    proof {
        let s = t@.subrange(lo as int, hi as int);
        assert(trim_spec(s) == s);
    }
    r
}

/// Renders whole input bytes as base-64 text in the chosen rendering.
pub fn process_encode(data: &[u8], format: Base64Format) -> (r: String)
    ensures
        encode_utf8(r@) == encode64_spec(data@, format.spec_url(), format.spec_pad()),
{
    match format {
        Base64Format::Standard => encode_std(data),
        Base64Format::UrlSafe => encode_url(data),
    }
}

/// Decodes base-64 text in the chosen rendering, ignoring leading and
/// trailing ASCII whitespace; malformed text is a `DecodeError`.
pub fn process_decode(text: &str, format: Base64Format) -> (r: Result<Vec<u8>, Error>)
    ensures
        match decode64_spec(
            trim_spec(encode_utf8(text@)),
            format.spec_url(),
            format.spec_pad(),
        ) {
            Some(b) => r is Ok && r->Ok_0@ == b,
            None => r == Err::<Vec<u8>, Error>(Error::DecodeError),
        },
{
    let trimmed = trim_ascii(text.as_bytes());
    match format {
        Base64Format::Standard => decode_std(trimmed),
        Base64Format::UrlSafe => decode_url(trimmed),
    }
}

} // verus!
