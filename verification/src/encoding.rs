//! The encoding adapter: base-64 family transcoding of raw bytes to text.
//!
//! The signing engine carries binary signatures across the text boundary in
//! the URL-safe, unpadded form; the transcoding utility also offers the
//! standard padded form.  Both forms share one mathematical model, the spec
//! functions `encode64_spec` and `decode64_spec` over byte sequences, where
//! `url` selects the alphabet's last two symbols and `pad` the trailing `=`
//! discipline.  The executable work is done by the `base64` crate; its calls
//! stand behind trusted wrappers whose contracts state exactly this model.

use vstd::prelude::*;

verus! {

use crate::error::Error;
use vstd::utf8::encode_utf8;

/// The ASCII code of the symbol for the six-bit value `v` (`v < 64`).
pub open spec fn b64_char_of(v: u8, url: bool) -> u8 {
    if v < 26 {
        (65 + v) as u8  // 'A'..='Z'
    } else if v < 52 {
        (71 + v) as u8  // 'a'..='z'
    } else if v < 62 {
        (v - 4) as u8  // '0'..='9'
    } else if v == 62 {
        if url { 45u8 } else { 43u8 }  // '-' or '+'
    } else {
        if url { 95u8 } else { 47u8 }  // '_' or '/'
    }
}

/// True when the byte is a symbol of the chosen alphabet.
pub open spec fn b64_is_symbol(b: u8, url: bool) -> bool {
    ||| 65 <= b <= 90
    ||| 97 <= b <= 122
    ||| 48 <= b <= 57
    ||| (url && (b == 45 || b == 95))
    ||| (!url && (b == 43 || b == 47))
}

/// The six-bit value of an alphabet symbol.
pub open spec fn b64_val_of(b: u8, url: bool) -> u8 {
    if 65 <= b <= 90 {
        (b - 65) as u8
    } else if 97 <= b <= 122 {
        (b - 71) as u8
    } else if 48 <= b <= 57 {
        (b + 4) as u8
    } else if b == 45 || b == 43 {
        62u8
    } else {
        63u8
    }
}

/// The six-bit groups of a byte sequence, taken three bytes at a time;
/// a trailing byte yields two groups, two trailing bytes yield three.
pub open spec fn sextets_of(s: Seq<u8>) -> Seq<u8>
    decreases s.len(),
{
    if s.len() == 0 {
        Seq::empty()
    } else if s.len() == 1 {
        seq![(s[0] / 4) as u8, ((s[0] % 4) * 16) as u8]
    } else if s.len() == 2 {
        seq![(s[0] / 4) as u8, ((s[0] % 4) * 16 + s[1] / 16) as u8, ((s[1] % 16) * 4) as u8]
    } else {
        seq![
            (s[0] / 4) as u8,
            ((s[0] % 4) * 16 + s[1] / 16) as u8,
            ((s[1] % 16) * 4 + s[2] / 64) as u8,
            (s[2] % 64) as u8,
        ] + sextets_of(s.skip(3))
    }
}

/// Structural validity of a sequence of six-bit groups: full quads, with a
/// final pair or triple whose unused low bits are zero.
pub open spec fn sextets_ok(v: Seq<u8>) -> bool
    decreases v.len(),
{
    if v.len() == 0 {
        true
    } else if v.len() == 1 {
        false
    } else if v.len() == 2 {
        v[1] % 16 == 0
    } else if v.len() == 3 {
        v[2] % 4 == 0
    } else {
        sextets_ok(v.skip(4))
    }
}

/// The bytes encoded by a sequence of six-bit groups.
pub open spec fn bytes_of_sextets(v: Seq<u8>) -> Seq<u8>
    decreases v.len(),
{
    if v.len() < 2 {
        Seq::empty()
    } else if v.len() == 2 {
        seq![(v[0] * 4 + v[1] / 16) as u8]
    } else if v.len() == 3 {
        seq![(v[0] * 4 + v[1] / 16) as u8, ((v[1] % 16) * 16 + v[2] / 4) as u8]
    } else {
        seq![
            (v[0] * 4 + v[1] / 16) as u8,
            ((v[1] % 16) * 16 + v[2] / 4) as u8,
            ((v[2] % 4) * 64 + v[3]) as u8,
        ] + bytes_of_sextets(v.skip(4))
    }
}

/// The `=` tail that the padded form appends, by the residue of the byte
/// count modulo three.
pub open spec fn pad_tail(rem: int) -> Seq<u8> {
    if rem == 1 {
        seq![61u8, 61u8]
    } else if rem == 2 {
        seq![61u8]
    } else {
        Seq::empty()
    }
}

/// The base-64 text (as ASCII bytes) of a byte sequence.
pub open spec fn encode64_spec(s: Seq<u8>, url: bool, pad: bool) -> Seq<u8> {
    let body = sextets_of(s).map_values(|v: u8| b64_char_of(v, url));
    if pad {
        body + pad_tail(s.len() as int % 3)
    } else {
        body
    }
}

/// The number of trailing `=` bytes.
pub open spec fn pad_count(t: Seq<u8>) -> int
    decreases t.len(),
{
    if t.len() > 0 && t.last() == 61 {
        1 + pad_count(t.drop_last())
    } else {
        0
    }
}

/// The bytes encoded by unpadded base-64 text, or `None` when the text is
/// not a valid encoding.
pub open spec fn decode64_nopad_spec(t: Seq<u8>, url: bool) -> Option<Seq<u8>> {
    if forall|i: int| 0 <= i < t.len() ==> b64_is_symbol(#[trigger] t[i], url) {
        let v = t.map_values(|b: u8| b64_val_of(b, url));
        if sextets_ok(v) {
            Some(bytes_of_sextets(v))
        } else {
            None
        }
    } else {
        None
    }
}

/// The bytes encoded by base-64 text, or `None` when the text is not a
/// valid encoding.  The padded form demands a length that is a multiple of
/// four and a canonical `=` tail; the unpadded form demands that no `=`
/// appear at all.
pub open spec fn decode64_spec(t: Seq<u8>, url: bool, pad: bool) -> Option<Seq<u8>> {
    if pad {
        if t.len() % 4 == 0 && pad_count(t) <= 2 {
            decode64_nopad_spec(t.take(t.len() - pad_count(t)), url)
        } else {
            None
        }
    } else {
        decode64_nopad_spec(t, url)
    }
}

proof fn lemma_char_val(v: u8, url: bool)
    requires
        v < 64,
    ensures
        b64_is_symbol(b64_char_of(v, url), url),
        b64_val_of(b64_char_of(v, url), url) == v,
        b64_char_of(v, url) != 61,
{
}

proof fn lemma_val_char(b: u8, url: bool)
    requires
        b64_is_symbol(b, url),
    ensures
        b64_val_of(b, url) < 64,
        b64_char_of(b64_val_of(b, url), url) == b,
{
}

/// Length and range of the six-bit groups of a byte sequence.
proof fn lemma_sextets_shape(s: Seq<u8>)
    ensures
        sextets_of(s).len() == 4 * (s.len() as int / 3) + (
        if s.len() as int % 3 == 0 {
            0int
        } else if s.len() as int % 3 == 1 {
            2int
        } else {
            3int
        }),
        forall|i: int| 0 <= i < sextets_of(s).len() ==> sextets_of(s)[i] < 64,
    decreases s.len(),
{
    if s.len() >= 3 {
        lemma_sextets_shape(s.skip(3));
    }
}

/// The six-bit groups of a byte sequence decode back to that sequence.
proof fn lemma_sextets_roundtrip(s: Seq<u8>)
    ensures
        sextets_ok(sextets_of(s)),
        bytes_of_sextets(sextets_of(s)) == s,
    decreases s.len(),
{
    let v = sextets_of(s);
    if s.len() == 0 {
        assert(bytes_of_sextets(v) =~= s);
    } else if s.len() == 1 {
        let a = s[0] as int;
        assert((a % 4) * 16 % 16 == 0) by (nonlinear_arith);
        assert((a / 4) * 4 + ((a % 4) * 16) / 16 == a) by (nonlinear_arith)
            requires
                0 <= a < 256,
        ;
        assert(bytes_of_sextets(v) =~= s);
    } else if s.len() == 2 {
        let a = s[0] as int;
        let b = s[1] as int;
        assert((b % 16) * 4 % 4 == 0) by (nonlinear_arith);
        assert((a / 4) * 4 + ((a % 4) * 16 + b / 16) / 16 == a) by (nonlinear_arith)
            requires
                0 <= a < 256 && 0 <= b < 256,
        ;
        assert((((a % 4) * 16 + b / 16) % 16) * 16 + ((b % 16) * 4) / 4 == b) by (nonlinear_arith)
            requires
                0 <= a < 256 && 0 <= b < 256,
        ;
        assert(bytes_of_sextets(v) =~= s);
    } else {
        let a = s[0] as int;
        let b = s[1] as int;
        let c = s[2] as int;
        let rest = sextets_of(s.skip(3));
        lemma_sextets_roundtrip(s.skip(3));
        assert(v.skip(4) =~= rest);
        assert((a / 4) * 4 + ((a % 4) * 16 + b / 16) / 16 == a) by (nonlinear_arith)
            requires
                0 <= a < 256 && 0 <= b < 256,
        ;
        assert((((a % 4) * 16 + b / 16) % 16) * 16 + ((b % 16) * 4 + c / 64) / 4 == b)
            by (nonlinear_arith)
            requires
                0 <= a < 256 && 0 <= b < 256 && 0 <= c < 256,
        ;
        assert((((b % 16) * 4 + c / 64) % 4) * 64 + c % 64 == c) by (nonlinear_arith)
            requires
                0 <= b < 256 && 0 <= c < 256,
        ;
        assert(bytes_of_sextets(v) =~= s);
    }
}

/// The padding tail is never negative and never longer than the text.
proof fn lemma_pad_count_bounds(t: Seq<u8>)
    ensures
        0 <= pad_count(t) <= t.len(),
    decreases t.len(),
{
    if t.len() > 0 && t.last() == 61 {
        lemma_pad_count_bounds(t.drop_last());
    }
}

/// Appending `k <= 2` many `=` bytes to a pad-free text yields a text whose
/// padding tail is exactly those bytes.
proof fn lemma_pad_count_append(x: Seq<u8>, k: int)
    requires
        0 <= k <= 2,
        x.len() == 0 || x.last() != 61,
    ensures
        pad_count(x + pad_tail(if k == 2 { 1int } else if k == 1 { 2int } else { 0int })) == k,
{
    let tail = pad_tail(if k == 2 { 1int } else if k == 1 { 2int } else { 0int });
    let t = x + tail;
    assert(pad_count(x) == 0);
    if k == 0 {
        assert(t =~= x);
    } else if k == 1 {
        assert(t.last() == 61);
        assert(t.drop_last() =~= x);
        assert(pad_count(t) == 1 + pad_count(x));
    } else {
        let m = x + seq![61u8];
        assert(t.last() == 61);
        assert(t.drop_last() =~= m);
        assert(m.last() == 61);
        assert(m.drop_last() =~= x);
        assert(pad_count(m) == 1 + pad_count(x));
        assert(pad_count(t) == 1 + pad_count(m));
    }
}

/// Law (one direction of the encoding round trip): decoding inverts
/// encoding — every byte sequence decodes back from its rendering, in both
/// alphabets, padded or not.
pub proof fn lemma_encode_then_decode(s: Seq<u8>, url: bool, pad: bool)
    ensures
        decode64_spec(encode64_spec(s, url, pad), url, pad) == Some(s),
{
    let body = sextets_of(s).map_values(|v: u8| b64_char_of(v, url));
    lemma_sextets_shape(s);
    lemma_sextets_roundtrip(s);
    assert forall|i: int| 0 <= i < body.len() implies b64_is_symbol(#[trigger] body[i], url)
        && body[i] != 61 by {
        lemma_char_val(sextets_of(s)[i], url);
    }
    assert(body.map_values(|b: u8| b64_val_of(b, url)) =~= sextets_of(s)) by {
        assert forall|i: int| 0 <= i < body.len() implies b64_val_of(body[i], url)
            == sextets_of(s)[i] by {
            lemma_char_val(sextets_of(s)[i], url);
        }
    }
    assert(decode64_nopad_spec(body, url) == Some(s));
    if pad {
        let rem = s.len() as int % 3;
        let t = body + pad_tail(rem);
        let k = pad_tail(rem).len() as int;
        if body.len() == 0 {
            lemma_pad_count_append(body, k);
        } else {
            lemma_pad_count_append(body, k);
        }
        assert(pad_count(t) == k);
        assert(t.len() % 4 == 0);
        assert(t.take(t.len() - k) =~= body);
    }
}

/// The unpadded direction of `lemma_decode_then_encode`, with the byte
/// count's residue carried along for the padded case.
#[verifier::rlimit(60)]
proof fn lemma_nopad_decode_encode(t: Seq<u8>, url: bool)
    requires
        decode64_nopad_spec(t, url) is Some,
    ensures
        encode64_spec(decode64_nopad_spec(t, url).unwrap(), url, false) == t,
        decode64_nopad_spec(t, url).unwrap().len() as int % 3 == (
        if t.len() as int % 4 == 2 {
            1int
        } else if t.len() as int % 4 == 3 {
            2int
        } else {
            0int
        }),
        decode64_nopad_spec(t, url).unwrap().len() as int == 3 * (t.len() as int / 4) + (
        if t.len() as int % 4 == 2 {
            1int
        } else if t.len() as int % 4 == 3 {
            2int
        } else {
            0int
        }),
    decreases t.len(),
{
    let v = t.map_values(|b: u8| b64_val_of(b, url));
    let b = bytes_of_sextets(v);
    assert forall|i: int| 0 <= i < t.len() implies #[trigger] v[i] < 64 by {
        lemma_val_char(t[i], url);
    }
    if t.len() == 0 {
        assert(encode64_spec(b, url, false) =~= t);
    } else if t.len() == 2 {
        let v0 = v[0] as int;
        let v1 = v[1] as int;
        let x = b[0] as int;
        assert(x == v0 * 4 + v1 / 16);
        assert((v0 * 4 + v1 / 16) / 4 == v0 && (v0 * 4 + v1 / 16) % 4 == v1 / 16)
            by (nonlinear_arith)
            requires
                0 <= v0 < 64 && 0 <= v1 < 64,
        ;
        assert((v1 / 16) * 16 == v1) by (nonlinear_arith)
            requires
                0 <= v1 < 64 && v1 % 16 == 0,
        ;
        assert(sextets_of(b) =~= v);
        assert(encode64_spec(b, url, false) =~= t) by {
            assert forall|i: int| 0 <= i < v.len() implies b64_char_of(v[i], url) == t[i] by {
                lemma_val_char(t[i], url);
            }
        }
    } else if t.len() == 3 {
        let v0 = v[0] as int;
        let v1 = v[1] as int;
        let v2 = v[2] as int;
        let x = b[0] as int;
        let y = b[1] as int;
        assert(x == v0 * 4 + v1 / 16 && y == (v1 % 16) * 16 + v2 / 4);
        assert((v0 * 4 + v1 / 16) / 4 == v0 && (v0 * 4 + v1 / 16) % 4 == v1 / 16)
            by (nonlinear_arith)
            requires
                0 <= v0 < 64 && 0 <= v1 < 64,
        ;
        assert(((v1 % 16) * 16 + v2 / 4) / 16 == v1 % 16 && ((v1 % 16) * 16 + v2 / 4) % 16
            == v2 / 4) by (nonlinear_arith)
            requires
                0 <= v1 < 64 && 0 <= v2 < 64,
        ;
        assert((v1 / 16) * 16 + v1 % 16 == v1) by (nonlinear_arith)
            requires
                0 <= v1 < 64,
        ;
        assert((v2 / 4) * 4 == v2) by (nonlinear_arith)
            requires
                0 <= v2 < 64 && v2 % 4 == 0,
        ;
        assert(sextets_of(b) =~= v);
        assert(encode64_spec(b, url, false) =~= t) by {
            assert forall|i: int| 0 <= i < v.len() implies b64_char_of(v[i], url) == t[i] by {
                lemma_val_char(t[i], url);
            }
        }
    } else {
        assert(t.len() >= 4);
        let tr = t.skip(4);
        assert(tr.map_values(|bb: u8| b64_val_of(bb, url)) =~= v.skip(4));
        assert(sextets_ok(v.skip(4)));
        assert(decode64_nopad_spec(tr, url) == Some(bytes_of_sextets(v.skip(4))));
        lemma_nopad_decode_encode(tr, url);
        let br = bytes_of_sextets(v.skip(4));
        let v0 = v[0] as int;
        let v1 = v[1] as int;
        let v2 = v[2] as int;
        let v3 = v[3] as int;
        let x = b[0] as int;
        let y = b[1] as int;
        let z = b[2] as int;
        assert(x == v0 * 4 + v1 / 16 && y == (v1 % 16) * 16 + v2 / 4 && z == (v2 % 4) * 64 + v3);
        assert(b.skip(3) =~= br);
        assert((v0 * 4 + v1 / 16) / 4 == v0 && (v0 * 4 + v1 / 16) % 4 == v1 / 16)
            by (nonlinear_arith)
            requires
                0 <= v0 < 64 && 0 <= v1 < 64,
        ;
        assert(((v1 % 16) * 16 + v2 / 4) / 16 == v1 % 16 && ((v1 % 16) * 16 + v2 / 4) % 16
            == v2 / 4) by (nonlinear_arith)
            requires
                0 <= v1 < 64 && 0 <= v2 < 64,
        ;
        assert((v1 / 16) * 16 + v1 % 16 == v1) by (nonlinear_arith)
            requires
                0 <= v1 < 64,
        ;
        assert(((v2 % 4) * 64 + v3) / 64 == v2 % 4 && ((v2 % 4) * 64 + v3) % 64 == v3)
            by (nonlinear_arith)
            requires
                0 <= v2 < 64 && 0 <= v3 < 64,
        ;
        assert((v2 / 4) * 4 + v2 % 4 == v2) by (nonlinear_arith)
            requires
                0 <= v2 < 64,
        ;
        assert(sextets_of(b) =~= seq![
            (b[0] / 4) as u8,
            ((b[0] % 4) * 16 + b[1] / 16) as u8,
            ((b[1] % 16) * 4 + b[2] / 64) as u8,
            (b[2] % 64) as u8,
        ] + sextets_of(b.skip(3)));
        assert(sextets_of(b) =~= v.take(4) + sextets_of(br));
        let body = sextets_of(b).map_values(|vv: u8| b64_char_of(vv, url));
        let body_r = sextets_of(br).map_values(|vv: u8| b64_char_of(vv, url));
        assert(body =~= t) by {
            assert forall|i: int| 0 <= i < body.len() implies body[i] == t[i] by {
                if i < 4 {
                    lemma_val_char(t[i], url);
                } else {
                    assert(sextets_of(b)[i] == sextets_of(br)[i - 4]);
                    assert(body_r[i - 4] == tr[i - 4]);
                }
            }
        }
    }
}

/// Law (the other direction of the encoding round trip): encoding inverts
/// decoding — every validly encoded text re-encodes from the bytes it
/// decodes to, in both alphabets, padded or not.
pub proof fn lemma_decode_then_encode(t: Seq<u8>, url: bool, pad: bool)
    requires
        decode64_spec(t, url, pad) is Some,
    ensures
        encode64_spec(decode64_spec(t, url, pad).unwrap(), url, pad) == t,
{
    if !pad {
        lemma_nopad_decode_encode(t, url);
    } else {
        let p = pad_count(t);
        lemma_pad_count_bounds(t);
        let stripped = t.take(t.len() - p);
        lemma_nopad_decode_encode(stripped, url);
        let b = decode64_nopad_spec(stripped, url).unwrap();
        assert(encode64_spec(b, url, false) == stripped);
        let rem = b.len() as int % 3;
        assert(encode64_spec(b, url, pad) == stripped + pad_tail(rem));
        if p == 0 {
            assert(rem == 0);
            assert(stripped + pad_tail(rem) =~= t);
        } else if p == 1 {
            assert(t.last() == 61);
            assert(pad_count(t.drop_last()) == 0);
            assert(stripped =~= t.drop_last());
            assert(rem == 2);
            assert(stripped + pad_tail(rem) =~= t);
        } else {
            assert(p == 2);
            assert(t.last() == 61);
            assert(pad_count(t.drop_last()) == 1);
            assert(t.drop_last().last() == 61);
            assert(stripped =~= t.drop_last().drop_last());
            assert(rem == 1);
            assert(t.drop_last() =~= stripped + seq![61u8]);
            assert(stripped + pad_tail(rem) =~= t);
        }
    }
}

#[verifier::external_type_specification]
#[verifier::external_body]
pub struct ExDecodeError(base64::DecodeError);

/// Relies on base64's `URL_SAFE_NO_PAD` engine: it renders bytes in the
/// URL-safe alphabet (`-`, `_`) without padding.
#[verifier::external_body]
fn b64_encode_url(data: &[u8]) -> (r: String)
    ensures
        encode_utf8(r@) == encode64_spec(data@, true, false),
{
    base64::Engine::encode(&base64::engine::general_purpose::URL_SAFE_NO_PAD, data)
}

/// Relies on base64's `STANDARD` engine: it renders bytes in the standard
/// alphabet (`+`, `/`) with canonical `=` padding.
#[verifier::external_body]
fn b64_encode_std(data: &[u8]) -> (r: String)
    ensures
        encode_utf8(r@) == encode64_spec(data@, false, true),
{
    base64::Engine::encode(&base64::engine::general_purpose::STANDARD, data)
}

/// Relies on base64's `URL_SAFE_NO_PAD` engine's decode: it accepts exactly
/// the unpadded URL-safe renderings (rejecting stray symbols, a length of
/// one modulo four, and non-zero trailing bits) and inverts the encoding.
#[verifier::external_body]
fn b64_decode_url(text: &[u8]) -> (r: Result<Vec<u8>, base64::DecodeError>)
    ensures
        match decode64_spec(text@, true, false) {
            Some(b) => r is Ok && r->Ok_0@ == b,
            None => r is Err,
        },
{
    base64::Engine::decode(&base64::engine::general_purpose::URL_SAFE_NO_PAD, text)
}

/// Relies on base64's `STANDARD` engine's decode: it accepts exactly the
/// canonically padded standard renderings and inverts the encoding.
#[verifier::external_body]
fn b64_decode_std(text: &[u8]) -> (r: Result<Vec<u8>, base64::DecodeError>)
    ensures
        match decode64_spec(text@, false, true) {
            Some(b) => r is Ok && r->Ok_0@ == b,
            None => r is Err,
        },
{
    base64::Engine::decode(&base64::engine::general_purpose::STANDARD, text)
}

/// Renders bytes as URL-safe, unpadded base-64 text.
pub fn encode_url(data: &[u8]) -> (r: String)
    ensures
        encode_utf8(r@) == encode64_spec(data@, true, false),
{
    b64_encode_url(data)
}

/// Renders bytes as standard, padded base-64 text.
pub fn encode_std(data: &[u8]) -> (r: String)
    ensures
        encode_utf8(r@) == encode64_spec(data@, false, true),
{
    b64_encode_std(data)
}

/// Decodes URL-safe, unpadded base-64 text; malformed text is a
/// `DecodeError`.
pub fn decode_url(text: &[u8]) -> (r: Result<Vec<u8>, Error>)
    ensures
        match decode64_spec(text@, true, false) {
            Some(b) => r is Ok && r->Ok_0@ == b,
            None => r == Err::<Vec<u8>, Error>(Error::DecodeError),
        },
{
    match b64_decode_url(text) {
        Ok(b) => Ok(b),
        Err(_) => Err(Error::DecodeError),
    }
}

/// Decodes standard, padded base-64 text; malformed text is a
/// `DecodeError`.
pub fn decode_std(text: &[u8]) -> (r: Result<Vec<u8>, Error>)
    ensures
        match decode64_spec(text@, false, true) {
            Some(b) => r is Ok && r->Ok_0@ == b,
            None => r == Err::<Vec<u8>, Error>(Error::DecodeError),
        },
{
    match b64_decode_std(text) {
        Ok(b) => Ok(b),
        Err(_) => Err(Error::DecodeError),
    }
}

} // verus!
