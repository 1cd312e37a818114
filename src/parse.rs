//! Reading numbers, hashes and addresses from the search input.
use vstd::prelude::*;
use crate::types::{Address, H256};
use vstd::std_specs::iter::IteratorSpec;

verus! {

pub open spec fn is_decimal_digit(c: char) -> bool {
    '0' <= c <= '9'
}

/// The number that a string of decimal digits spells.
pub open spec fn decimal_value(s: Seq<char>) -> int
    decreases s.len(),
{
    if s.len() == 0 {
        0
    } else {
        10 * decimal_value(s.drop_last()) + (s.last() as int - '0' as int)
    }
}

/// What `str::parse::<u64>` reads: an optional `+`, then one or more decimal
/// digits whose value fits in 64 bits.
pub open spec fn parsed_u64(s: Seq<char>) -> Option<u64> {
    let d = if s.len() > 0 && s[0] == '+' {
        s.skip(1)
    } else {
        s
    };
    if d.len() > 0 && (forall|i: int| 0 <= i < d.len() ==> is_decimal_digit(#[trigger] d[i]))
        && decimal_value(d) <= u64::MAX {
        Some(decimal_value(d) as u64)
    } else {
        None
    }
}

pub open spec fn is_hex_digit(c: char) -> bool {
    ('0' <= c <= '9') || ('a' <= c <= 'f') || ('A' <= c <= 'F')
}

/// Characters that hex decoding skips.
pub open spec fn is_hex_space(c: char) -> bool {
    c == ' ' || c == '\r' || c == '\n' || c == '\t'
}

pub open spec fn hex_value(c: char) -> int {
    if '0' <= c <= '9' {
        c as int - '0' as int
    } else if 'a' <= c <= 'f' {
        c as int - 'a' as int + 10
    } else {
        c as int - 'A' as int + 10
    }
}

/// The text after an optional leading `0x`.
pub open spec fn strip_0x(s: Seq<char>) -> Seq<char> {
    if s.len() >= 2 && s[0] == '0' && s[1] == 'x' {
        s.skip(2)
    } else {
        s
    }
}

/// The hex digits of `s` once the prefix and the skipped characters are gone.
pub open spec fn hex_digits(s: Seq<char>) -> Seq<char> {
    strip_0x(s).filter(|c: char| is_hex_digit(c))
}

/// `s` spells exactly `n` bytes in hex: after an optional `0x`, only hex digits
/// and skipped characters, with `2 * n` digits.
pub open spec fn is_fixed_hex(s: Seq<char>, n: nat) -> bool {
    &&& forall|i: int|
        0 <= i < strip_0x(s).len() ==> is_hex_digit(#[trigger] strip_0x(s)[i]) || is_hex_space(
            strip_0x(s)[i],
        )
    &&& hex_digits(s).len() == 2 * n
}

/// Byte `i` of the value that `s` spells in hex.
pub open spec fn hex_byte(s: Seq<char>, i: int) -> int {
    16 * hex_value(hex_digits(s)[2 * i]) + hex_value(hex_digits(s)[2 * i + 1])
}

/// Relies on `u64`'s `FromStr`: an optional `+` and decimal digits, without
/// overflow.
#[verifier::external_body]
pub(crate) fn parse_u64(s: &str) -> (r: Option<u64>)
    ensures
        r == parsed_u64(s@),
{
    s.parse::<u64>().ok()
}

/// Relies on `FromStr` of ethers_core's `H256` (fixed-hash): an optional `0x`,
/// then exactly 64 hex digits, spaces, tabs and line breaks skipped.
#[verifier::external_body]
pub(crate) fn parse_hash(s: &str) -> (r: Option<H256>)
    ensures
        r is Some <==> is_fixed_hex(s@, 32),
        r matches Some(h) ==> forall|i: int| 0 <= i < 32 ==> h@[i] == hex_byte(s@, i),
{
    s.parse::<ethers_core::types::H256>().ok().map(|h| H256 { bytes: h.0 })
}

/// Relies on `FromStr` of ethers_core's `H160` (fixed-hash): an optional `0x`,
/// then exactly 40 hex digits, spaces, tabs and line breaks skipped.
#[verifier::external_body]
pub(crate) fn parse_address(s: &str) -> (r: Option<Address>)
    ensures
        r is Some <==> is_fixed_hex(s@, 20),
        r matches Some(a) ==> forall|i: int| 0 <= i < 20 ==> a@[i] == hex_byte(s@, i),
{
    s.parse::<ethers_core::types::H160>().ok().map(|a| Address { bytes: a.0 })
}

/// Relies on `FromIterator<char>` for `String`: the characters in order.
#[verifier::external_body]
pub(crate) fn text_of(chars: &Vec<char>) -> (r: String)
    ensures
        r@ == chars@,
{
    chars.iter().collect()
}

/// The characters of `s`, in order.
pub fn chars_of(s: &str) -> (r: Vec<char>)
    ensures
        r@ == s@,
{
    broadcast use vstd::string::axiom_spec_iter, vstd::string::next_postcondition;

    let mut it = s.chars();
    let mut r: Vec<char> = Vec::new();
    let mut done = false;
    while !done
        invariant
            it.obeys_prophetic_iter_laws(),
            r@ + it.remaining() == s@,
            done ==> it.remaining().len() == 0,
        decreases s@.len() - r@.len() + if done {
            0int
        } else {
            1int
        },
    {
        match it.next() {
            Some(c) => {
                proof {
                    assert(r@.push(c) + it.remaining() =~= s@);
                }
                r.push(c);
            },
            None => {
                done = true;
            },
        }
    }
    proof {
        assert(r@ =~= s@);
    }
    r
}

} // verus!
