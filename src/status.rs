use vstd::prelude::*;

verus! {

/// The named bits of the processor status register.
#[derive(Debug, Clone, Copy, PartialEq, Eq, Structural)]
pub enum Flag {
    Carry,
    Zero,
    InterruptDisable,
    DecimalMode,
    /// Bits 4 and 5 together: read as one two-bit field, written as a pair.
    Break,
    Overflow,
    Negative,
}

/// The bits of the status byte that belong to a flag.
pub open spec fn flag_mask(f: Flag) -> u8 {
    match f {
        Flag::Carry => 0x01,
        Flag::Zero => 0x02,
        Flag::InterruptDisable => 0x04,
        Flag::DecimalMode => 0x08,
        Flag::Break => 0x30,
        Flag::Overflow => 0x40,
        Flag::Negative => 0x80,
    }
}

/// A flag reads as set when any bit of its field is one.
pub open spec fn flag_set(ps: u8, f: Flag) -> bool {
    ps & flag_mask(f) != 0
}

/// The status byte with every bit of the flag's field set (`on`) or cleared.
pub open spec fn with_flag(ps: u8, f: Flag, on: bool) -> u8 {
    if on {
        ps | flag_mask(f)
    } else {
        ps & !flag_mask(f)
    }
}

/// Bit 7 of a byte, the sign bit in two's complement.
pub open spec fn is_negative(v: u8) -> bool {
    v >= 0x80
}

/// Zero and Negative recomputed from a result byte, every other bit kept.
pub open spec fn with_zn(ps: u8, v: u8) -> u8 {
    with_flag(with_flag(ps, Flag::Zero, v == 0), Flag::Negative, is_negative(v))
}

proof fn lemma_field_bits(ps: u8, mf: u8, mg: u8, on: bool)
    by (bit_vector)
    requires
        mf != 0,
        mg != 0,
        mf == mg || mf & mg == 0,
    ensures
        ((if on { ps | mf } else { ps & !mf }) & mg != 0) == (if mf == mg { on } else { ps & mg != 0 }),
{
}

proof fn lemma_masks_disjoint()
    by (bit_vector)
    ensures
        0x01u8 & 0x02u8 == 0 && 0x01u8 & 0x04u8 == 0 && 0x01u8 & 0x08u8 == 0 && 0x01u8 & 0x30u8 == 0,
        0x01u8 & 0x40u8 == 0 && 0x01u8 & 0x80u8 == 0,
        0x02u8 & 0x04u8 == 0 && 0x02u8 & 0x08u8 == 0 && 0x02u8 & 0x30u8 == 0,
        0x02u8 & 0x40u8 == 0 && 0x02u8 & 0x80u8 == 0,
        0x04u8 & 0x08u8 == 0 && 0x04u8 & 0x30u8 == 0 && 0x04u8 & 0x40u8 == 0 && 0x04u8 & 0x80u8 == 0,
        0x08u8 & 0x30u8 == 0 && 0x08u8 & 0x40u8 == 0 && 0x08u8 & 0x80u8 == 0,
        0x30u8 & 0x40u8 == 0 && 0x30u8 & 0x80u8 == 0 && 0x40u8 & 0x80u8 == 0,
{
}

proof fn lemma_mask_and_commutes(a: u8, b: u8)
    by (bit_vector)
    ensures
        a & b == b & a,
{
}

/// Writing one flag sets that flag to the value written and leaves every
/// other flag as it was.
pub proof fn lemma_with_flag(ps: u8, f: Flag, on: bool, g: Flag)
    ensures
        flag_set(with_flag(ps, f, on), g) == (if f == g { on } else { flag_set(ps, g) }),
{
    lemma_masks_disjoint();
    lemma_mask_and_commutes(flag_mask(f), flag_mask(g));
    lemma_field_bits(ps, flag_mask(f), flag_mask(g), on);
}

/// After recomputing Zero and Negative from `v`, Zero is set exactly when `v`
/// is zero, Negative exactly when bit 7 of `v` is one, and the other flags
/// are unchanged.
pub proof fn lemma_with_zn(ps: u8, v: u8, g: Flag)
    ensures
        flag_set(with_zn(ps, v), Flag::Zero) == (v == 0),
        flag_set(with_zn(ps, v), Flag::Negative) == is_negative(v),
        g != Flag::Zero && g != Flag::Negative ==> flag_set(with_zn(ps, v), g) == flag_set(ps, g),
{
    let ps_z = with_flag(ps, Flag::Zero, v == 0);
    lemma_with_flag(ps, Flag::Zero, v == 0, g);
    lemma_with_flag(ps, Flag::Zero, v == 0, Flag::Zero);
    lemma_with_flag(ps_z, Flag::Negative, is_negative(v), g);
    lemma_with_flag(ps_z, Flag::Negative, is_negative(v), Flag::Zero);
    lemma_with_flag(ps_z, Flag::Negative, is_negative(v), Flag::Negative);
}

impl Flag {
    pub fn mask(self) -> (r: u8)
        ensures
            r == flag_mask(self),
    {
        match self {
            Flag::Carry => 0x01,
            Flag::Zero => 0x02,
            Flag::InterruptDisable => 0x04,
            Flag::DecimalMode => 0x08,
            Flag::Break => 0x30,
            Flag::Overflow => 0x40,
            Flag::Negative => 0x80,
        }
    }
}

/// The status register as a value: a byte with named flag operations.
#[derive(Debug, Clone, Copy, PartialEq, Eq, Structural)]
pub struct Status {
    pub bits: u8,
}

impl Status {
    pub fn is_set(&self, f: Flag) -> (r: bool)
        ensures
            r == flag_set(self.bits, f),
    {
        self.bits & f.mask() != 0
    }

    /// Sets the flag when `on` holds, clears it otherwise.
    pub fn assign(&mut self, f: Flag, on: bool)
        ensures
            final(self).bits == with_flag(old(self).bits, f, on),
    {
        if on {
            self.bits = self.bits | f.mask();
        } else {
            self.bits = self.bits & !f.mask();
        }
    }

    pub fn set(&mut self, f: Flag)
        ensures
            final(self).bits == with_flag(old(self).bits, f, true),
    {
        self.assign(f, true);
    }

    pub fn clear(&mut self, f: Flag)
        ensures
            final(self).bits == with_flag(old(self).bits, f, false),
    {
        self.assign(f, false);
    }

    /// Recomputes Zero and Negative from a result byte.
    pub fn update_zero_and_negative(&mut self, v: u8)
        ensures
            final(self).bits == with_zn(old(self).bits, v),
    {
        self.assign(Flag::Zero, v == 0);
        self.assign(Flag::Negative, v >= 0x80);
    }
}

} // verus!
