//! Hexadecimal text to bytes and back, through the `hex` crate.

use vstd::prelude::*;

verus! {

/// Why a text is not the hexadecimal form of a tag.
#[derive(Copy, Clone, PartialEq, Eq, Debug, Structural)]
pub enum HexError {
    /// A byte that is no hexadecimal digit, and its offset in the text.
    InvalidHexCharacter { c: char, index: usize },
    /// The text has an odd number of digits.
    OddLength,
    /// The text has an even number of digits, but not two for each byte wanted.
    InvalidStringLength,
}

/// `b` is one of `0-9`, `a-f`, `A-F`.
pub open spec fn is_hex_digit(b: u8) -> bool {
    (48 <= b <= 57) || (97 <= b <= 102) || (65 <= b <= 70)
}

/// The value of a hexadecimal digit.
pub open spec fn hex_value(b: u8) -> int {
    if 48 <= b <= 57 {
        b - 48
    } else if 97 <= b <= 102 {
        b - 87
    } else {
        b - 55
    }
}

/// Every byte of `s` is a hexadecimal digit.
pub open spec fn all_hex(s: Seq<u8>) -> bool {
    forall|i: int| 0 <= i < s.len() ==> is_hex_digit(#[trigger] s[i])
}

/// The offset of the first byte of `s` that is no hexadecimal digit, or the
/// length of `s` where there is none.
pub open spec fn first_non_hex(s: Seq<u8>) -> int
    decreases s.len(),
{
    if s.len() == 0 {
        0
    } else if !is_hex_digit(s[0]) {
        0
    } else {
        1 + first_non_hex(s.drop_first())
    }
}

/// The verdict on `s` as the text of `n` bytes: an odd number of digits
/// first, then a count other than two for each byte, then the first byte that
/// is no digit.
pub open spec fn hex_verdict(s: Seq<u8>, n: int) -> Result<(), HexError> {
    if s.len() % 2 == 1 {
        Err(HexError::OddLength)
    } else if s.len() != 2 * n {
        Err(HexError::InvalidStringLength)
    } else if !all_hex(s) {
        Err(
            HexError::InvalidHexCharacter {
                c: s[first_non_hex(s)] as char,
                index: first_non_hex(s) as usize,
            },
        )
    } else {
        Ok(())
    }
}

/// The bytes that the digits of `s` stand for, two digits for each byte, the
/// high half first.
pub open spec fn hex_bytes(s: Seq<u8>) -> Seq<u8> {
    Seq::new(
        (s.len() / 2) as nat,
        |i: int| (hex_value(s[2 * i]) * 16 + hex_value(s[2 * i + 1])) as u8,
    )
}

/// The upper-case hexadecimal digit of `d < 16`.
pub open spec fn upper_digit(d: int) -> char {
    if d < 10 {
        (48 + d) as char
    } else {
        (55 + d) as char
    }
}

/// The upper-case hexadecimal text of `b`, two digits for each byte, the high
/// half first.
pub open spec fn upper_hex(b: Seq<u8>) -> Seq<char> {
    Seq::new(
        2 * b.len(),
        |i: int|
            if i % 2 == 0 {
                upper_digit(b[i / 2] as int / 16)
            } else {
                upper_digit(b[i / 2] as int % 16)
            },
    )
}

/// The first byte that is no digit: where there is one, `first_non_hex` is
/// its offset, and every byte before it is a digit; else it is the length.
pub proof fn lemma_first_non_hex(s: Seq<u8>)
    ensures
        0 <= first_non_hex(s) <= s.len(),
        forall|j: int| 0 <= j < first_non_hex(s) ==> is_hex_digit(#[trigger] s[j]),
        all_hex(s) <==> first_non_hex(s) == s.len(),
        !all_hex(s) ==> !is_hex_digit(s[first_non_hex(s)]),
    decreases s.len(),
{
    if s.len() > 0 {
        lemma_first_non_hex(s.drop_first());
        let t = s.drop_first();
        assert forall|j: int| 1 <= j < s.len() implies s[j] == t[j - 1] by {}
    }
}

/// The verdict on a text: an odd length, and only that, gives `OddLength`; an
/// even length other than two digits for each byte, and only that, gives
/// `InvalidStringLength`; `InvalidHexCharacter` names the first byte that is
/// no digit and its offset; the text is accepted exactly when none of these
/// holds.
pub proof fn lemma_hex_verdict(s: Seq<u8>, n: int)
    requires
        n >= 0,
        s.len() <= usize::MAX,
    ensures
        (hex_verdict(s, n) matches Err(HexError::OddLength)) <==> s.len() % 2 == 1,
        (hex_verdict(s, n) matches Err(HexError::InvalidStringLength)) <==> (s.len() % 2 == 0
            && s.len() != 2 * n),
        (hex_verdict(s, n) matches Err(HexError::InvalidHexCharacter { .. })) <==> (s.len() == 2
            * n && !all_hex(s)),
        (hex_verdict(s, n) matches Err(HexError::InvalidHexCharacter { c, index }) ==> 0 <= index
            < s.len() && !is_hex_digit(s[index as int]) && c == s[index as int] as char && forall|
            j: int,
        |
            0 <= j < index ==> is_hex_digit(#[trigger] s[j])),
        (hex_verdict(s, n) is Ok) <==> (s.len() == 2 * n && all_hex(s)),
{
    lemma_first_non_hex(s);
}

/// What the `hex` crate says of an invalid character at an offset.
pub uninterp spec fn invalid_character_text(c: char, index: usize) -> Seq<char>;

/// Relies on `hex::decode_to_slice`: it reports an odd length first, then a
/// length other than two digits for each byte of `out`, then the first byte
/// that is no digit; else it fills `out`.
#[verifier::external_body]
pub(crate) fn decode_hex_into(data: &[u8], out: &mut [u8; 16]) -> (r: Result<(), HexError>)
    ensures
        r == hex_verdict(data@, 16),
        r is Ok ==> final(out)@ == hex_bytes(data@),
{
    match hex::decode_to_slice(data, out) {
        Ok(()) => Ok(()),
        Err(hex::FromHexError::InvalidHexCharacter { c, index }) => Err(
            HexError::InvalidHexCharacter { c, index },
        ),
        Err(hex::FromHexError::OddLength) => Err(HexError::OddLength),
        Err(hex::FromHexError::InvalidStringLength) => Err(HexError::InvalidStringLength),
    }
}

/// Relies on `hex::encode_upper`: two upper-case digits for each byte.
#[verifier::external_body]
pub(crate) fn encode_hex_upper(b: &[u8; 16]) -> (r: String)
    ensures
        r@ == upper_hex(b@),
{
    hex::encode_upper(b)
}

/// Relies on the `Display` of `hex::FromHexError`: its message for each cause.
#[verifier::external_body]
fn hex_error_text(e: HexError) -> (r: String)
    ensures
        e == HexError::OddLength ==> r@ == "Odd number of digits"@,
        e == HexError::InvalidStringLength ==> r@ == "Invalid string length"@,
        forall|c: char, index: usize|
            e == (HexError::InvalidHexCharacter { c, index }) ==> r@
                == invalid_character_text(c, index),
{
    let err = match e {
        HexError::InvalidHexCharacter { c, index } => hex::FromHexError::InvalidHexCharacter {
            c,
            index,
        },
        HexError::OddLength => hex::FromHexError::OddLength,
        HexError::InvalidStringLength => hex::FromHexError::InvalidStringLength,
    };
    err.to_string()
}

impl HexError {
    /// The message that describes this cause.
    pub fn to_string(&self) -> (r: String)
        ensures
            *self == HexError::OddLength ==> r@ == "Odd number of digits"@,
            *self == HexError::InvalidStringLength ==> r@ == "Invalid string length"@,
            forall|c: char, index: usize|
                *self == (HexError::InvalidHexCharacter { c, index }) ==> r@
                    == invalid_character_text(c, index),
    {
        hex_error_text(*self)
    }
}

} // verus!
