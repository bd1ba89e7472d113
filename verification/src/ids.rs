//! Identifiers: random 128-bit numbers and how they are written.
use vstd::arithmetic::power::pow;
use vstd::prelude::*;

verus! {

/// The lower-case hexadecimal digit for `d`.
pub open spec fn hex_digit(d: int) -> char {
    if d < 10 {
        (0x30 + d) as u8 as char
    } else {
        (0x57 + d) as u8 as char
    }
}

/// The upper-case hexadecimal digit for `d`.
pub open spec fn upper_hex_digit(d: int) -> char {
    if d < 10 {
        (0x30 + d) as u8 as char
    } else {
        (0x37 + d) as u8 as char
    }
}

/// The `k`-th of the 32 hexadecimal digits of a 128-bit number, the highest first.
pub open spec fn id_digit(n: int, k: int) -> char {
    hex_digit((n / pow(16, (31 - k) as nat)) % 16)
}

/// A 128-bit number as 32 hexadecimal digits.
pub open spec fn simple_id(n: u128) -> Seq<char> {
    Seq::new(32, |k: int| id_digit(n as int, k))
}

/// A 128-bit number as groups of 8, 4, 4, 4 and 12 hexadecimal digits with hyphens between them.
pub open spec fn hyphenated_id(n: u128) -> Seq<char> {
    let s = simple_id(n);
    s.subrange(0, 8) + seq!['-'] + s.subrange(8, 12) + seq!['-'] + s.subrange(12, 16) + seq!['-']
        + s.subrange(16, 20) + seq!['-'] + s.subrange(20, 32)
}

/// A random identifier. Of `uuid::Uuid::new_v4` this claims only what holds of every outcome: the
/// version bits hold 4 and the variant bits hold binary 10.
#[verifier::external_body]
pub(crate) fn random_id() -> (n: u128)
    ensures
        n / 0x1000_0000_0000_0000_0000 % 16 == 4,
        n / 0x4000_0000_0000_0000 % 4 == 2,
{
    uuid::Uuid::new_v4().as_u128()
}

/// Writes an identifier as `uuid::Uuid` displays itself: hyphenated, in lower case.
#[verifier::external_body]
pub(crate) fn hyphenated(n: u128) -> (s: String)
    ensures
        s@ == hyphenated_id(n),
{
    uuid::Uuid::from_u128(n).to_string()
}

/// Writes an identifier as `uuid::Uuid::simple` displays it: 32 digits in lower case.
#[verifier::external_body]
pub(crate) fn simple(n: u128) -> (s: String)
    ensures
        s@ == simple_id(n),
{
    uuid::Uuid::from_u128(n).simple().to_string()
}

/// A new random identifier of 32 hexadecimal digits.
pub fn new_simple_id() -> (s: String)
    ensures
        exists|n: u128| n != 0 && s@ == #[trigger] simple_id(n),
{
    let n: u128 = random_id();
    let s = simple(n);
    assert(n != 0);
    assert(s@ == simple_id(n));
    s
}

/// Hexadecimal digits in either case: the same from 0 to 9, and letters from there on, the capital
/// ones 32 places before the others.
pub proof fn law_hexadecimal_digits(d: int)
    requires
        0 <= d < 16,
    ensures
        d < 10 ==> hex_digit(d) as int == '0' as int + d && upper_hex_digit(d) == hex_digit(d),
        d >= 10 ==> hex_digit(d) as int == 'a' as int + (d - 10) && upper_hex_digit(d) as int
            == hex_digit(d) as int - 32,
{
}

/// An identifier with hyphens has the same digits as one without, in the same order, and hyphens
/// after 8, 12, 16 and 20 of them.
pub proof fn law_hyphens_stand_between_groups(n: u128)
    ensures
        hyphenated_id(n).len() == 36,
        simple_id(n).len() == 32,
        hyphenated_id(n)[8] == '-' && hyphenated_id(n)[13] == '-' && hyphenated_id(n)[18] == '-'
            && hyphenated_id(n)[23] == '-',
        forall|i: int| 0 <= i < 8 ==> #[trigger] hyphenated_id(n)[i] == simple_id(n)[i],
        forall|i: int| 9 <= i < 13 ==> #[trigger] hyphenated_id(n)[i] == simple_id(n)[i - 1],
        forall|i: int| 14 <= i < 18 ==> #[trigger] hyphenated_id(n)[i] == simple_id(n)[i - 2],
        forall|i: int| 19 <= i < 23 ==> #[trigger] hyphenated_id(n)[i] == simple_id(n)[i - 3],
        forall|i: int| 24 <= i < 36 ==> #[trigger] hyphenated_id(n)[i] == simple_id(n)[i - 4],
{
}

} // verus!
