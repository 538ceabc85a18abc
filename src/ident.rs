//! Record identifiers: 128-bit values written as hyphenated UUID text.

use vstd::prelude::*;
use vstd::arithmetic::div_mod::{lemma_div_denominator, lemma_fundamental_div_mod};

verus! {

/// The lower-case hexadecimal character for a digit below 16.
pub open spec fn hex_char(d: nat) -> char {
    if d == 0 { '0' }
    else if d == 1 { '1' }
    else if d == 2 { '2' }
    else if d == 3 { '3' }
    else if d == 4 { '4' }
    else if d == 5 { '5' }
    else if d == 6 { '6' }
    else if d == 7 { '7' }
    else if d == 8 { '8' }
    else if d == 9 { '9' }
    else if d == 10 { 'a' }
    else if d == 11 { 'b' }
    else if d == 12 { 'c' }
    else if d == 13 { 'd' }
    else if d == 14 { 'e' }
    else { 'f' }
}

/// Sixteen to the power `e`.
pub open spec fn pow16(e: nat) -> nat
    decreases e,
{
    if e == 0 {
        1
    } else {
        16 * pow16((e - 1) as nat)
    }
}

/// The `k`-th hexadecimal digit of `v`, counting from the most significant
/// of its 32 digits.
pub open spec fn nibble(v: u128, k: nat) -> nat {
    (v as nat / pow16((31 - k) as nat)) % 16
}

/// Whether position `i` of the 36-character text holds a hyphen.
pub open spec fn is_hyphen_at(i: int) -> bool {
    i == 8 || i == 13 || i == 18 || i == 23
}

/// The digit that position `i` of the 36-character text holds.
pub open spec fn digit_index(i: int) -> nat {
    if i < 8 {
        i as nat
    } else if i < 13 {
        (i - 1) as nat
    } else if i < 18 {
        (i - 2) as nat
    } else if i < 23 {
        (i - 3) as nat
    } else {
        (i - 4) as nat
    }
}

/// The hyphenated lower-case form `xxxxxxxx-xxxx-xxxx-xxxx-xxxxxxxxxxxx`
/// of an identifier.
pub open spec fn hyphenated(v: u128) -> Seq<char> {
    Seq::new(
        36,
        |i: int|
            if is_hyphen_at(i) {
                '-'
            } else {
                hex_char(nibble(v, digit_index(i)))
            },
    )
}

/// What `uuid::Uuid::parse_str` makes of a text, as a 128-bit value.
pub uninterp spec fn uuid_parse(s: Seq<char>) -> Option<u128>;

/// The identifier that a text names: the one whose hyphenated form it is,
/// else whatever other UUID form `uuid` reads in it.
pub open spec fn id_of_text(s: Seq<char>) -> Option<u128> {
    if exists|v: u128| hyphenated(v) == s {
        Some(choose|v: u128| hyphenated(v) == s)
    } else {
        uuid_parse(s)
    }
}

/// The position of the `k`-th digit in the 36-character text.
pub open spec fn position_of_digit(k: int) -> int {
    if k < 8 {
        k
    } else if k < 12 {
        k + 1
    } else if k < 16 {
        k + 2
    } else if k < 20 {
        k + 3
    } else {
        k + 4
    }
}

proof fn lemma_pow16_positive(e: nat)
    ensures
        pow16(e) > 0,
    decreases e,
{
    if e > 0 {
        lemma_pow16_positive((e - 1) as nat);
    }
}

/// The leading `n` digits of two values agree when every digit agrees.
proof fn lemma_prefixes_agree(a: u128, b: u128, n: nat)
    requires
        n <= 32,
        forall|k: nat| k < 32 ==> nibble(a, k) == nibble(b, k),
    ensures
        a as nat / pow16((32 - n) as nat) == b as nat / pow16((32 - n) as nat),
    decreases n,
{
    if n == 0 {
        reveal_with_fuel(pow16, 33);
        assert(pow16(32) == 0x1_0000_0000_0000_0000_0000_0000_0000_0000);
    } else {
        lemma_prefixes_agree(a, b, (n - 1) as nat);
        let e = (32 - n) as nat;
        lemma_pow16_positive(e);
        assert(pow16(e + 1) == 16 * pow16(e));
        let xa = a as nat / pow16(e);
        let xb = b as nat / pow16(e);
        lemma_div_denominator(a as int, pow16(e) as int, 16);
        lemma_div_denominator(b as int, pow16(e) as int, 16);
        assert(pow16(e) * 16 == pow16(e + 1));
        assert(xa / 16 == xb / 16);
        assert(nibble(a, (n - 1) as nat) == xa % 16);
        assert(nibble(b, (n - 1) as nat) == xb % 16);
        lemma_fundamental_div_mod(xa as int, 16);
        lemma_fundamental_div_mod(xb as int, 16);
    }
}

proof fn lemma_hex_char_injective(x: nat, y: nat)
    requires
        x < 16,
        y < 16,
        hex_char(x) == hex_char(y),
    ensures
        x == y,
{
}

/// Distinct identifiers have distinct hyphenated forms.
pub proof fn lemma_hyphenated_injective(a: u128, b: u128)
    requires
        hyphenated(a) == hyphenated(b),
    ensures
        a == b,
{
    assert forall|k: nat| k < 32 implies nibble(a, k) == nibble(b, k) by {
        let i = position_of_digit(k as int);
        assert(0 <= i < 36);
        assert(!is_hyphen_at(i) && digit_index(i) == k);
        assert(hyphenated(a)[i] == hex_char(nibble(a, k)));
        assert(hyphenated(b)[i] == hex_char(nibble(b, k)));
        lemma_pow16_positive((31 - k) as nat);
        assert(nibble(a, k) < 16 && nibble(b, k) < 16);
        lemma_hex_char_injective(nibble(a, k), nibble(b, k));
    }
    lemma_prefixes_agree(a, b, 32);
    assert(pow16(0) == 1);
    assert(a as nat / 1 == a as nat);
    assert(b as nat / 1 == b as nat);
}

/// The hyphenated form of an identifier names that identifier.
pub proof fn lemma_id_of_hyphenated(v: u128)
    ensures
        id_of_text(hyphenated(v)) == Some(v),
{
    assert(exists|w: u128| hyphenated(w) == hyphenated(v));
    let w = choose|w: u128| hyphenated(w) == hyphenated(v);
    lemma_hyphenated_injective(w, v);
}

/// Relies on `uuid::Uuid::parse_str`: it reads the text forms of a UUID,
/// the hyphenated lower-case form among them (which names one value only),
/// and `Uuid::as_u128` gives the value back.
#[verifier::external_body]
pub(crate) fn parse_uuid(s: &str) -> (r: Option<u128>)
    ensures
        forall|v: u128| hyphenated(v) == s@ ==> r == Some(v),
        (forall|v: u128| hyphenated(v) != s@) ==> r == uuid_parse(s@),
{
    uuid::Uuid::parse_str(s).ok().map(|u| u.as_u128())
}

/// Reads an identifier from its text.
pub fn parse_id(s: &str) -> (r: Option<u128>)
    ensures
        r == id_of_text(s@),
{
    parse_uuid(s)
}

/// Relies on `uuid::Uuid::now_v7`: a fresh time-ordered identifier. Its
/// value depends on the clock and on chance, so nothing is said of it.
#[verifier::external_body]
pub(crate) fn new_id() -> (r: u128)
{
    uuid::Uuid::now_v7().as_u128()
}

/// Relies on `uuid::Uuid::from_u128` and its `Display`, which writes the
/// hyphenated lower-case form.
#[verifier::external_body]
pub(crate) fn uuid_text(v: u128) -> (r: String)
    ensures
        r@ == hyphenated(v),
{
    uuid::Uuid::from_u128(v).to_string()
}

} // verus!
