//! Password generation: a random draw from caller-selected character
//! classes, with one character of every selected class guaranteed.

use vstd::prelude::*;
use rand::seq::SliceRandom;

verus! {

use crate::error::Error;
use crate::utils::string_from_ascii;
use vstd::seq_lib::group_to_multiset_ensures;
use vstd::slice::slice_to_vec;
use vstd::utf8::{encode_utf8, is_ascii_chars, is_ascii_chars_encode_utf8};

/// The capital letters drawn from (the ambiguous `I` and `O` are left out).
pub open spec fn upper_bytes() -> Seq<u8> {
    encode_utf8("ABCDEFGHJKLMNPQRSTUVWXYZ"@)
}

/// The small letters drawn from (the ambiguous `l` is left out).
pub open spec fn lower_bytes() -> Seq<u8> {
    encode_utf8("abcdefghijkmnopqrstuvwxyz"@)
}

/// The digits drawn from (the ambiguous `0` is left out).
pub open spec fn number_bytes() -> Seq<u8> {
    encode_utf8("123456789"@)
}

/// The symbols drawn from.
pub open spec fn symbol_bytes() -> Seq<u8> {
    encode_utf8("!@#$%^&*_"@)
}

/// True when the byte belongs to one of the selected character classes.
pub open spec fn allowed_byte(b: u8, upper: bool, lower: bool, number: bool, symbol: bool) -> bool {
    ||| (upper && upper_bytes().contains(b))
    ||| (lower && lower_bytes().contains(b))
    ||| (number && number_bytes().contains(b))
    ||| (symbol && symbol_bytes().contains(b))
}

/// True when some character of the password belongs to the class alphabet.
pub open spec fn has_class(chars: Seq<char>, class: Seq<u8>) -> bool {
    exists|i: int| 0 <= i < chars.len() && class.contains(#[trigger] (chars[i] as u8))
}

/// How many character classes are selected.
pub open spec fn enabled_count(upper: bool, lower: bool, number: bool, symbol: bool) -> int {
    (if upper { 1int } else { 0int }) + (if lower { 1int } else { 0int }) + (if number {
        1int
    } else {
        0int
    }) + (if symbol { 1int } else { 0int })
}

/// Every class alphabet is non-empty ASCII text.
proof fn lemma_class_bytes()
    ensures
        upper_bytes().len() == 24,
        lower_bytes().len() == 25,
        number_bytes().len() == 9,
        symbol_bytes().len() == 9,
        forall|i: int| 0 <= i < upper_bytes().len() ==> #[trigger] upper_bytes()[i] < 128,
        forall|i: int| 0 <= i < lower_bytes().len() ==> #[trigger] lower_bytes()[i] < 128,
        forall|i: int| 0 <= i < number_bytes().len() ==> #[trigger] number_bytes()[i] < 128,
        forall|i: int| 0 <= i < symbol_bytes().len() ==> #[trigger] symbol_bytes()[i] < 128,
{
    reveal_strlit("ABCDEFGHJKLMNPQRSTUVWXYZ");
    reveal_strlit("abcdefghijkmnopqrstuvwxyz");
    reveal_strlit("123456789");
    reveal_strlit("!@#$%^&*_");
    assert(is_ascii_chars("ABCDEFGHJKLMNPQRSTUVWXYZ"@));
    assert(is_ascii_chars("abcdefghijkmnopqrstuvwxyz"@));
    assert(is_ascii_chars("123456789"@));
    assert(is_ascii_chars("!@#$%^&*_"@));
    is_ascii_chars_encode_utf8("ABCDEFGHJKLMNPQRSTUVWXYZ"@);
    is_ascii_chars_encode_utf8("abcdefghijkmnopqrstuvwxyz"@);
    is_ascii_chars_encode_utf8("123456789"@);
    is_ascii_chars_encode_utf8("!@#$%^&*_"@);
}

/// A byte of a selected class is ASCII.
proof fn lemma_allowed_ascii(b: u8, upper: bool, lower: bool, number: bool, symbol: bool)
    requires
        allowed_byte(b, upper, lower, number, symbol),
    ensures
        b < 128,
{
    lemma_class_bytes();
}

fn upper_chars() -> (r: Vec<u8>)
    ensures
        r@ == upper_bytes(),
{
    let s = "ABCDEFGHJKLMNPQRSTUVWXYZ";
    slice_to_vec(s.as_bytes())
}

fn lower_chars() -> (r: Vec<u8>)
    ensures
        r@ == lower_bytes(),
{
    let s = "abcdefghijkmnopqrstuvwxyz";
    slice_to_vec(s.as_bytes())
}

fn number_chars() -> (r: Vec<u8>)
    ensures
        r@ == number_bytes(),
{
    let s = "123456789";
    slice_to_vec(s.as_bytes())
}

fn symbol_chars() -> (r: Vec<u8>)
    ensures
        r@ == symbol_bytes(),
{
    let s = "!@#$%^&*_";
    slice_to_vec(s.as_bytes())
}

/// Relies on rand's `SliceRandom::choose` with `thread_rng`: a randomly
/// chosen element of a non-empty slice.
#[verifier::external_body]
fn pick_byte(chars: &[u8]) -> (r: u8)
    requires
        chars@.len() > 0,
    ensures
        chars@.contains(r),
{
    *chars.choose(&mut rand::thread_rng()).unwrap()
}

/// Relies on rand's `SliceRandom::shuffle` with `thread_rng`: an in-place
/// permutation — the same elements in a new order.
#[verifier::external_body]
fn shuffle_bytes(v: &mut Vec<u8>)
    ensures
        final(v)@.to_multiset() == old(v)@.to_multiset(),
        final(v)@.len() == old(v)@.len(),
{
    v.as_mut_slice().shuffle(&mut rand::thread_rng());
}

/// A byte planted before the shuffle is still present, as a character,
/// after it.
proof fn lemma_survives_shuffle(
    base: Seq<u8>,
    before: Seq<u8>,
    after: Seq<u8>,
    chars: Seq<char>,
    k: int,
)
    requires
        0 <= k < base.len() <= before.len(),
        forall|i: int| 0 <= i < base.len() ==> before[i] == base[i],
        after.to_multiset() == before.to_multiset(),
        chars.len() == after.len(),
        forall|i: int| 0 <= i < after.len() ==> (#[trigger] chars[i]) as u8 == after[i],
    ensures
        exists|i: int| 0 <= i < chars.len() && (#[trigger] chars[i]) as u8 == base[k],
{
    broadcast use group_to_multiset_ensures;

    assert(before[k] == base[k]);
    assert(before.contains(base[k]));
    assert(after.to_multiset().count(base[k]) > 0);
    assert(after.contains(base[k]));
    let i = choose|i: int| 0 <= i < after.len() && after[i] == base[k];
    assert(chars[i] as u8 == base[k]);
}

/// Generates a password of exactly `length` bytes, drawn from the selected
/// character classes, with at least one character of every selected class.
pub fn process_genpass(length: u8, upper: bool, lower: bool, number: bool, symbol: bool) -> (r:
    Result<String, Error>)
    requires
        enabled_count(upper, lower, number, symbol) <= length as int,
        length > 0 ==> (upper || lower || number || symbol),
    ensures
        r is Ok,
        r->Ok_0@.len() == length as int,
        is_ascii_chars(r->Ok_0@),
        forall|i: int|
            0 <= i < length as int ==> allowed_byte(
                #[trigger] (r->Ok_0@[i] as u8),
                upper,
                lower,
                number,
                symbol,
            ),
        upper ==> has_class(r->Ok_0@, upper_bytes()),
        lower ==> has_class(r->Ok_0@, lower_bytes()),
        number ==> has_class(r->Ok_0@, number_bytes()),
        symbol ==> has_class(r->Ok_0@, symbol_bytes()),
{
    broadcast use group_to_multiset_ensures;

    proof {
        lemma_class_bytes();
    }
    let mut password: Vec<u8> = Vec::new();
    let mut chars: Vec<u8> = Vec::new();
    if upper {
        let mut class = upper_chars();
        password.push(pick_byte(class.as_slice()));
        chars.append(&mut class);
    }
    if lower {
        let mut class = lower_chars();
        password.push(pick_byte(class.as_slice()));
        chars.append(&mut class);
    }
    if number {
        let mut class = number_chars();
        password.push(pick_byte(class.as_slice()));
        chars.append(&mut class);
    }
    if symbol {
        let mut class = symbol_chars();
        password.push(pick_byte(class.as_slice()));
        chars.append(&mut class);
    }
    let ghost base = password@;
    assert(forall|i: int|
        0 <= i < chars@.len() ==> allowed_byte(#[trigger] chars@[i], upper, lower, number, symbol));
    while password.len() < length as usize
        invariant
            base.len() == enabled_count(upper, lower, number, symbol),
            base.len() <= password@.len() <= length as int,
            length > 0 ==> chars@.len() > 0,
            forall|i: int|
                0 <= i < chars@.len() ==> allowed_byte(
                    #[trigger] chars@[i],
                    upper,
                    lower,
                    number,
                    symbol,
                ),
            forall|i: int| 0 <= i < base.len() ==> password@[i] == base[i],
            forall|i: int|
                0 <= i < password@.len() ==> allowed_byte(
                    #[trigger] password@[i],
                    upper,
                    lower,
                    number,
                    symbol,
                ),
        decreases length as int - password@.len(),
    {
        let c = pick_byte(chars.as_slice());
        proof {
            let j = choose|j: int| 0 <= j < chars@.len() && chars@[j] == c;
            assert(allowed_byte(chars@[j], upper, lower, number, symbol));
        }
        password.push(c);
    }
    assert(password@.len() == length as int);
    let ghost before = password@;
    assert(forall|i: int|
        0 <= i < before.len() ==> allowed_byte(#[trigger] before[i], upper, lower, number, symbol));
    shuffle_bytes(&mut password);
    proof {
        assert forall|i: int|
            0 <= i < password@.len() implies allowed_byte(
            #[trigger] password@[i],
            upper,
            lower,
            number,
            symbol,
        ) && password@[i] < 128 by {
            let x = password@[i];
            assert(password@.contains(x));
            assert(password@.to_multiset().count(x) > 0);
            assert(before.to_multiset().count(x) > 0);
            assert(before.contains(x));
            let j = choose|j: int| 0 <= j < before.len() && before[j] == x;
            assert(allowed_byte(before[j], upper, lower, number, symbol));
            lemma_allowed_ascii(x, upper, lower, number, symbol);
        }
    }
    let s = string_from_ascii(&password);
    proof {
        if upper {
            let k = 0int;
            assert(upper_bytes().contains(base[k]));
            lemma_survives_shuffle(base, before, password@, s@, k);
            let i = choose|i: int| 0 <= i < s@.len() && (#[trigger] s@[i]) as u8 == base[k];
            assert(upper_bytes().contains(s@[i] as u8));
            assert(has_class(s@, upper_bytes()));
        }
        if lower {
            let k = enabled_count(upper, false, false, false);
            assert(lower_bytes().contains(base[k]));
            lemma_survives_shuffle(base, before, password@, s@, k);
            let i = choose|i: int| 0 <= i < s@.len() && (#[trigger] s@[i]) as u8 == base[k];
            assert(lower_bytes().contains(s@[i] as u8));
            assert(has_class(s@, lower_bytes()));
        }
        if number {
            let k = enabled_count(upper, lower, false, false);
            assert(number_bytes().contains(base[k]));
            lemma_survives_shuffle(base, before, password@, s@, k);
            let i = choose|i: int| 0 <= i < s@.len() && (#[trigger] s@[i]) as u8 == base[k];
            assert(number_bytes().contains(s@[i] as u8));
            assert(has_class(s@, number_bytes()));
        }
        if symbol {
            let k = enabled_count(upper, lower, number, false);
            assert(symbol_bytes().contains(base[k]));
            lemma_survives_shuffle(base, before, password@, s@, k);
            let i = choose|i: int| 0 <= i < s@.len() && (#[trigger] s@[i]) as u8 == base[k];
            assert(symbol_bytes().contains(s@[i] as u8));
            assert(has_class(s@, symbol_bytes()));
        }
    }
    Ok(s)
}

} // verus!
