//! Single-bit manipulation on bytes.
use vstd::prelude::*;

verus! {

/// The byte with only bit `bit` set.
pub open spec fn bit_mask(bit: u8) -> u8 {
    (1u8 << bit) as u8
}

/// Value (0 or 1) of bit `bit` of `number`.
pub open spec fn bit_of(number: u8, bit: u8) -> u8 {
    ((number >> bit) & 1) as u8
}

/// `number` with bit `bit` replaced by `value` (0 or 1).
pub open spec fn with_bit(number: u8, bit: u8, value: u8) -> u8 {
    (number & !bit_mask(bit)) | ((value << bit) as u8)
}

/// Sets bit `bit` of `number` to one.
pub fn set_bit(number: u8, bit: u8) -> (r: u8)
    requires
        bit <= 7,
    ensures
        r == number | bit_mask(bit),
        r == with_bit(number, bit, 1),
        forall|i: u8| i <= 7 ==> #[trigger] bit_of(r, i) == if i == bit { 1 } else { bit_of(number, i) },
{
    let r = number | (1u8 << bit);
    assert(forall|i: u8| i <= 7 ==> #[trigger] bit_of(r, i) == if i == bit { 1 } else { bit_of(number, i) }) by (bit_vector)
        requires r == number | (1u8 << bit), bit <= 7;
    assert(r == (number & !(1u8 << bit)) | ((1u8 << bit) as u8)) by (bit_vector)
        requires r == number | (1u8 << bit), bit <= 7;
    r
}

/// Clears bit `bit` of `number`.
pub fn clear_bit(number: u8, bit: u8) -> (r: u8)
    requires
        bit <= 7,
    ensures
        r == number & !bit_mask(bit),
        r == with_bit(number, bit, 0),
        forall|i: u8| i <= 7 ==> #[trigger] bit_of(r, i) == if i == bit { 0 } else { bit_of(number, i) },
{
    let r = number & !(1u8 << bit);
    assert(forall|i: u8| i <= 7 ==> #[trigger] bit_of(r, i) == if i == bit { 0 } else { bit_of(number, i) }) by (bit_vector)
        requires r == number & !(1u8 << bit), bit <= 7;
    assert(r == (number & !(1u8 << bit)) | ((0u8 << bit) as u8)) by (bit_vector)
        requires r == number & !(1u8 << bit), bit <= 7;
    r
}

/// Flips bit `bit` of `number`.
pub fn toggle_bit(number: u8, bit: u8) -> (r: u8)
    requires
        bit <= 7,
    ensures
        r == number ^ bit_mask(bit),
        forall|i: u8| i <= 7 ==> #[trigger] bit_of(r, i) == if i == bit { (1 - bit_of(number, i)) as u8 } else { bit_of(number, i) },
{
    let r = number ^ (1u8 << bit);
    assert(forall|i: u8| i <= 7 ==> #[trigger] bit_of(r, i) == if i == bit { (1 - bit_of(number, i)) as u8 } else { bit_of(number, i) }) by (bit_vector)
        requires r == number ^ (1u8 << bit), bit <= 7;
    r
}

/// Sets bit `bit` of `number` to `value`, which is 0 or 1.
pub fn change_bit_to(number: u8, bit: u8, value: u8) -> (r: u8)
    requires
        bit <= 7,
        value <= 1,
    ensures
        r == with_bit(number, bit, value),
        forall|i: u8| i <= 7 ==> #[trigger] bit_of(r, i) == if i == bit { value } else { bit_of(number, i) },
{
    let r = number & !(1u8 << bit) | (value << bit);
    assert(forall|i: u8| i <= 7 ==> #[trigger] bit_of(r, i) == if i == bit { value } else { bit_of(number, i) }) by (bit_vector)
        requires r == (number & !(1u8 << bit)) | (value << bit), bit <= 7, value <= 1;
    r
}

} // verus!
