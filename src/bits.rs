use vstd::prelude::*;

verus! {

/// True when bit `bit` of `value` is set.
pub fn tbit(value: u8, bit: u8) -> (r: bool)
    requires
        bit < 8,
    ensures
        r == (value & (1u8 << bit) != 0),
{
    value & (1u8 << bit) != 0
}

/// `value` with bit `bit` set.
pub fn sbit(value: u8, bit: u8) -> (r: u8)
    requires
        bit < 8,
    ensures
        r == value | (1u8 << bit),
{
    value | (1u8 << bit)
}

/// `value` with bit `bit` cleared.
pub fn ubit(value: u8, bit: u8) -> (r: u8)
    requires
        bit < 8,
    ensures
        r == value & !(1u8 << bit),
{
    value & !(1u8 << bit)
}

/// Bit `bit` of `value`, as 0 or 1.
pub fn gbit(value: u8, bit: u8) -> (r: u8)
    requires
        bit < 8,
    ensures
        r == (value >> bit) & 1,
{
    let r = (value & (1u8 << bit)) >> bit;
    assert(r == (value >> bit) & 1) by (bit_vector)
        requires
            r == (value & (1u8 << bit)) >> bit,
            bit < 8,
    ;
    r
}

} // verus!
