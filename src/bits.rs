use bit_field::BitField;
use vstd::prelude::*;

verus! {

/// Whether bit `bit` of `value` is set.
pub open spec fn bit_set(value: u32, bit: nat) -> bool {
    (value >> bit) & 1 == 1
}

/// Relies on `bit_field::BitField::get_bit` for `u32`: it returns
/// `value & (1 << bit) != 0`, and asserts `bit < 32`.
#[verifier::external_body]
pub(crate) fn get_bit(value: u32, bit: usize) -> (r: bool)
    requires
        bit < 32,
    ensures
        r == bit_set(value, bit as nat),
{
    value.get_bit(bit)
}

} // verus!
