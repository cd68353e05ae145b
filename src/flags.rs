//! Condition flags and the flag algebra of arithmetic results.

use vstd::prelude::*;

verus! {

/// Number of set bits in `n`.
pub open spec fn ones(n: nat) -> nat
    decreases n,
{
    if n == 0 {
        0
    } else {
        n % 2 + ones(n / 2)
    }
}

/// Even-parity convention: true iff `b` has an even number of set bits.
pub open spec fn even_parity(b: u8) -> bool {
    ones(b as nat) % 2 == 0
}

/// The five status flags of the processor.
#[derive(Clone, Copy, Debug, PartialEq, Eq, Structural)]
pub struct ConditionCodes {
    /// Zero: the low byte of the result is zero.
    pub z: bool,
    /// Sign: bit 7 of the low byte of the result is set.
    pub s: bool,
    /// Parity: the low byte of the result has an even number of set bits.
    pub p: bool,
    /// Carry: the result did not fit in eight bits.
    pub cy: bool,
    /// Auxiliary carry: half-carry out of bit 3.
    pub ac: bool,
}

/// The flags that an arithmetic result `value` (before truncation to a byte) produces.
/// Every flag is determined by `value` alone; the auxiliary carry is always cleared.
pub open spec fn arith_flags(value: int) -> ConditionCodes {
    ConditionCodes {
        z: value % 256 == 0,
        s: value % 256 >= 128,
        p: even_parity((value % 256) as u8),
        cy: value > 255,
        ac: false,
    }
}

impl ConditionCodes {
    /// All flags cleared.
    pub fn empty() -> (r: ConditionCodes)
        ensures
            r == (ConditionCodes { z: false, s: false, p: false, cy: false, ac: false }),
    {
        ConditionCodes { z: false, s: false, p: false, cy: false, ac: false }
    }

    /// Recomputes every flag from a widened arithmetic result.
    pub fn from_result(value: u16) -> (r: ConditionCodes)
        ensures
            r == arith_flags(value as int),
    {
        let low: u16 = value & 0xff;
        assert(low == value % 256) by (bit_vector)
            requires
                low == value & 0xff,
        ;
        assert((low & 0x80 != 0) == (low >= 128)) by (bit_vector)
            requires
                low < 256,
        ;
        ConditionCodes {
            z: low == 0,
            s: low & 0x80 != 0,
            p: parity(value),
            cy: value > 0xff,
            ac: false,
        }
    }
}

/// True iff the low byte of `value` has an even number of set bits.
pub fn parity(value: u16) -> (r: bool)
    ensures
        r == even_parity((value % 256) as u8),
{
    let byte: u8 = (value & 0xff) as u8;
    assert(value & 0xff == value % 256) by (bit_vector);
    assert(byte >> 0u8 == byte) by (bit_vector);
    let mut v: u8 = byte;
    let mut count: u8 = 0;
    let mut i: u8 = 0;
    while i < 8
        invariant
            i <= 8,
            count <= i,
            v == byte >> i,
            count + ones(v as nat) == ones(byte as nat),
        decreases 8 - i,
    {
        assert((v & 1 == 1) == (v % 2 == 1) && v >> 1 == v / 2) by (bit_vector);
        assert((byte >> i) >> 1u8 == byte >> (i + 1) as u8) by (bit_vector)
            requires
                i < 8,
        ;
        if v & 0x01 == 1 {
            count = count + 1;
        }
        v = v >> 1;
        i = i + 1;
    }
    assert(byte >> 8u8 == 0) by (bit_vector);
    assert((count & 1 == 0) == (count % 2 == 0)) by (bit_vector);
    count & 0x01 == 0
}

} // verus!
