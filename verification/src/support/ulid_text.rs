//! ULID values (128-bit identifiers) and their Crockford base-32 text form.

use vstd::prelude::*;

verus! {

/// The Crockford base-32 digit for `d` (0 to 31): `0`-`9`, then the capital
/// letters without `I`, `L`, `O` and `U`.
pub open spec fn crockford_digit(d: int) -> char {
    if d < 10 {
        (d + 48) as char
    } else if d < 18 {
        (d + 55) as char
    } else if d < 20 {
        (d + 56) as char
    } else if d < 22 {
        (d + 57) as char
    } else if d < 27 {
        (d + 58) as char
    } else {
        (d + 59) as char
    }
}

/// The 26-character text of a ULID value: its Crockford base-32 digits,
/// five bits each, most significant first (the first digit holds the top
/// three bits).
pub open spec fn ulid_text(value: u128) -> Seq<char> {
    Seq::new(
        26,
        |k: int| crockford_digit((value as int / vstd::arithmetic::power2::pow2((5 * (25 - k)) as nat) as int) % 32),
    )
}

/// The number of bytes of a character in UTF-8.
pub open spec fn utf8_width(c: char) -> nat {
    if (c as u32) < 0x80 {
        1
    } else if (c as u32) < 0x800 {
        2
    } else if (c as u32) < 0x10000 {
        3
    } else {
        4
    }
}

/// The number of bytes of a text in UTF-8.
pub open spec fn utf8_len(t: Seq<char>) -> nat
    decreases t.len(),
{
    if t.len() == 0 {
        0
    } else {
        utf8_len(t.drop_last()) + utf8_width(t.last())
    }
}

/// The value of a Crockford base-32 digit, upper or lower case; none for
/// any other character (`I`, `L`, `O` and `U` included).
pub open spec fn crockford_value(c: char) -> Option<int> {
    let n = c as int;
    if 48 <= n <= 57 {
        Some(n - 48)
    } else {
        let u = if 97 <= n <= 122 { n - 32 } else { n };
        if 65 <= u <= 72 {
            Some(u - 55)
        } else if u == 74 || u == 75 {
            Some(u - 56)
        } else if u == 77 || u == 78 {
            Some(u - 57)
        } else if 80 <= u <= 84 {
            Some(u - 58)
        } else if 86 <= u <= 90 {
            Some(u - 59)
        } else {
            None
        }
    }
}

/// The number the first `k` digits of `t` spell in base 32, most
/// significant first, kept to 128 bits.
pub open spec fn crockford_number(t: Seq<char>, k: int) -> int
    decreases k,
{
    if k <= 0 {
        0
    } else {
        (crockford_number(t, k - 1) * 32 + crockford_value(t[k - 1])->Some_0) % vstd::arithmetic::power2::pow2(128) as int
    }
}

/// What `ulid::Ulid::from_string` gives for a text: `invalid length` unless
/// the text has 26 bytes; `invalid character` unless every character is a
/// Crockford base-32 digit; else the 128-bit value the digits spell.
pub open spec fn ulid_decode(text: Seq<char>) -> Result<u128, Seq<char>> {
    if utf8_len(text) != 26 {
        Err("invalid length"@)
    } else if exists|i: int| 0 <= i < text.len() && #[trigger] crockford_value(text[i]) is None {
        Err("invalid character"@)
    } else {
        Ok(crockford_number(text, text.len() as int) as u128)
    }
}

/// A fresh ULID (`ulid::Ulid::new`), built from the clock and random bits.
/// Nothing is claimed of the value.
#[verifier::external_body]
pub(crate) fn fresh_ulid() -> u128 {
    ulid::Ulid::new().0
}

/// `ulid::Ulid::to_string` (the crate's base-32 `encode`). Claims that the
/// text is the Crockford base-32 form of `value` stated by `ulid_text`, 26
/// characters, and that decoding it gives `value` back (the crate's encoder
/// and decoder are inverse on 128-bit values).
#[verifier::external_body]
pub(crate) fn ulid_to_string(value: u128) -> (s: String)
    ensures
        s@ == ulid_text(value),
        s@.len() == 26,
        ulid_decode(s@) is Ok,
        ulid_decode(s@)->Ok_0 == value,
{
    ulid::Ulid(value).to_string()
}

/// `ulid::Ulid::from_string` (the crate's base-32 `decode`), with the error
/// printed. Claims that the outcome is the decoding `ulid_decode` states.
#[verifier::external_body]
pub(crate) fn ulid_from_str(text: &str) -> (r: Result<u128, String>)
    ensures
        r is Ok <==> ulid_decode(text@) is Ok,
        r matches Ok(v) ==> ulid_decode(text@)->Ok_0 == v,
        r matches Err(e) ==> ulid_decode(text@)->Err_0 == e@,
{
    match ulid::Ulid::from_string(text) {
        Ok(u) => Ok(u.0),
        Err(e) => Err(e.to_string()),
    }
}

/// The text of a ULID value: its 26 Crockford base-32 digits.
pub fn ulid_string(value: u128) -> (s: String)
    ensures
        s@ == ulid_text(value),
        ulid_decode(s@) == Ok::<u128, Seq<char>>(value),
{
    ulid_to_string(value)
}

/// The ULID value a text spells, or why it spells none.
pub fn parse_ulid(text: &str) -> (r: Result<u128, String>)
    ensures
        r is Ok <==> ulid_decode(text@) is Ok,
        r matches Ok(v) ==> ulid_decode(text@) == Ok::<u128, Seq<char>>(v),
        r matches Err(e) ==> ulid_decode(text@) == Err::<u128, Seq<char>>(e@),
{
    ulid_from_str(text)
}

} // verus!
