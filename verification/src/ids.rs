//! Random identifiers: version-4 UUIDs as 128-bit numbers, and their
//! hyphenated lower-case text.

use vstd::prelude::*;

verus! {

/// Whether `v` carries the version-4 and RFC 4122 variant bits of a random
/// UUID.
pub open spec fn is_v4(v: u128) -> bool {
    (v >> 76u128) & 0xF == 4 && (v >> 62u128) & 0x3 == 2
}

/// The lower-case hexadecimal digit of a nibble.
pub open spec fn hex_digit(n: u128) -> char {
    if n < 10 {
        ((n + 48) as u32) as char
    } else {
        ((n + 87) as u32) as char
    }
}

/// The `k`-th of the 32 hexadecimal digits of `v`, most significant first.
pub open spec fn nibble(v: u128, k: int) -> u128 {
    (v >> ((4 * (31 - k)) as u128)) & 0xF
}

/// The position in the 32 digits of the `i`-th character of the
/// hyphenated text, or -1 for a hyphen (positions 8, 13, 18 and 23).
pub open spec fn digit_index(i: int) -> int {
    if i < 8 {
        i
    } else if i == 8 {
        -1
    } else if i < 13 {
        i - 1
    } else if i == 13 {
        -1
    } else if i < 18 {
        i - 2
    } else if i == 18 {
        -1
    } else if i < 23 {
        i - 3
    } else if i == 23 {
        -1
    } else {
        i - 4
    }
}

/// The hyphenated lower-case text of the UUID `v`, such as
/// `67e55044-10b1-426f-9247-bb680e5fe0c8`.
pub open spec fn hyphenated(v: u128) -> Seq<char> {
    Seq::new(
        36,
        |i: int|
            if digit_index(i) < 0 {
                '-'
            } else {
                hex_digit(nibble(v, digit_index(i)))
            },
    )
}

/// The text of a random UUID has the hyphenated shape: 36 characters,
/// hyphens at positions 8, 13, 18 and 23, and the version digit `4` at
/// position 14.
pub proof fn law_v4_text_shape(v: u128)
    requires
        is_v4(v),
    ensures
        hyphenated(v).len() == 36,
        hyphenated(v)[8] == '-' && hyphenated(v)[13] == '-' && hyphenated(v)[18] == '-'
            && hyphenated(v)[23] == '-',
        hyphenated(v)[14] == '4',
        forall|i: int|
            0 <= i < 36 && digit_index(i) >= 0 ==> ('0' <= #[trigger] hyphenated(v)[i] <= '9' || 'a'
                <= hyphenated(v)[i] <= 'f'),
{
    assert forall|i: int| 0 <= i < 36 && digit_index(i) >= 0 implies ('0' <= #[trigger] hyphenated(
        v,
    )[i] <= '9' || 'a' <= hyphenated(v)[i] <= 'f') by {
        let k = digit_index(i);
        let sh = (4 * (31 - k)) as u128;
        assert((v >> sh) & 0xF <= 15) by (bit_vector);
    }
    assert(digit_index(14) == 12);
    assert(nibble(v, 12) == (v >> 76u128) & 0xF);
    assert(hex_digit(4) == '4');
}

/// What `uuid::Uuid::parse_str` gives for a text: the UUID's 128 bits, or
/// nothing when the text is not a UUID.
pub uninterp spec fn parsed_uuid(s: Seq<char>) -> Option<u128>;

/// `uuid::Uuid::new_v4()`, as a number: a random UUID whose version and
/// variant bits are those of version 4 (the source masks them in).
#[verifier::external_body]
pub(crate) fn random_uuid_v4() -> (r: u128)
    ensures
        is_v4(r),
{
    uuid::Uuid::new_v4().as_u128()
}

/// `uuid::Uuid::from_u128(v).to_string()`: the hyphenated lower-case text
/// that `Display` writes for a UUID.
#[verifier::external_body]
pub(crate) fn uuid_text(v: u128) -> (r: String)
    ensures
        r@ == hyphenated(v),
{
    uuid::Uuid::from_u128(v).to_string()
}

/// `uuid::Uuid::parse_str(s)`, as a number. The parser reads the formats
/// that the crate writes, so the hyphenated text of a UUID reads back as
/// that UUID.
#[verifier::external_body]
pub(crate) fn parse_uuid(s: &str) -> (r: Option<u128>)
    ensures
        r == parsed_uuid(s@),
        forall|v: u128| s@ == hyphenated(v) ==> r == Some(v),
{
    match uuid::Uuid::parse_str(s) {
        Ok(u) => Some(u.as_u128()),
        Err(_) => None,
    }
}

} // verus!
