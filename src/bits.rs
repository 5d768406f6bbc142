//! Single-bit access on bytes, through the `bit_field` crate.
use bit_field::BitField;
use vstd::prelude::*;

verus! {

/// Whether bit `i` (0 = least significant) of `x` is one.
pub open spec fn bit_spec(x: u8, i: u8) -> bool {
    x & (1u8 << i) != 0
}

/// `x` with bit `i` set to `v`, every other bit kept.
pub open spec fn with_bit_spec(x: u8, i: u8, v: bool) -> u8 {
    if v {
        x | (1u8 << i)
    } else {
        x & !(1u8 << i)
    }
}

/// Relies on `BitField::get_bit` for `u8`: `(x & (1 << i)) != 0`; it panics
/// for an index of 8 or more, which `requires` leaves out.
#[verifier::external_body]
pub(crate) fn get_bit(x: u8, i: u8) -> (r: bool)
    requires
        i < 8,
    ensures
        r == bit_spec(x, i),
{
    x.get_bit(i as usize)
}

/// Relies on `BitField::set_bit` for `u8`: `x |= 1 << i` when `v`, else
/// `x &= !(1 << i)`; it panics for an index of 8 or more.
#[verifier::external_body]
pub(crate) fn set_bit(x: u8, i: u8, v: bool) -> (r: u8)
    requires
        i < 8,
    ensures
        r == with_bit_spec(x, i, v),
{
    let mut y = x;
    y.set_bit(i as usize, v);
    y
}

} // verus!
