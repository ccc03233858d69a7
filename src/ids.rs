use vstd::prelude::*;
use vstd::arithmetic::power::pow;

verus! {

/// A 128-bit unique identifier (accounts, repositories, messages, clients).
#[derive(Debug, Clone, Copy, PartialEq, Eq, Structural, Hash)]
pub struct Uid {
    pub bits: u128,
}

/// The lower-case hexadecimal digits.
pub open spec fn hex_digits() -> Seq<char> {
    seq!['0', '1', '2', '3', '4', '5', '6', '7', '8', '9', 'a', 'b', 'c', 'd', 'e', 'f']
}

/// The `k`-th of the 32 hexadecimal digits of `bits`, most significant first.
pub open spec fn nibble(bits: u128, k: int) -> int {
    (bits as int / pow(16, (31 - k) as nat)) % 16
}

/// The digit shown at position `p` of the text form, skipping the hyphens
/// before it.
pub open spec fn digit_at(p: int) -> int {
    if p < 8 {
        p
    } else if p < 13 {
        p - 1
    } else if p < 18 {
        p - 2
    } else if p < 23 {
        p - 3
    } else {
        p - 4
    }
}

/// The hyphenated text form: 36 characters, the 32 lower-case hexadecimal
/// digits of the bits, most significant first, with hyphens at positions 8,
/// 13, 18 and 23.
pub open spec fn uuid_text(bits: u128) -> Seq<char> {
    Seq::new(
        36,
        |p: int|
            if p == 8 || p == 13 || p == 18 || p == 23 {
                '-'
            } else {
                hex_digits()[nibble(bits, digit_at(p))]
            },
    )
}

/// Relies on `uuid::Uuid::from_u128` (big-endian bytes of the value) and
/// uuid's `Display`, which writes the hyphenated lower-case form.
#[verifier::external_body]
fn hyphenated(bits: u128) -> (r: String)
    ensures
        r@ == uuid_text(bits),
{
    uuid::Uuid::from_u128(bits).to_string()
}

impl Uid {
    /// The identifier's text form, as it is sent to clients.
    pub fn to_text(&self) -> (r: String)
        ensures
            r@ == uuid_text(self.bits),
    {
        hyphenated(self.bits)
    }
}

} // verus!
