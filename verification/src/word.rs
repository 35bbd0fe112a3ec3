//! The 256-bit machine word: two 128-bit limbs, with the bitwise, shift and
//! rotation operations the instruction set defines over full words.
//!
//! The low limb holds bits 0..128 of the word, the high limb bits 128..256.
//! Shift and rotation amounts are 8-bit, `0..=255`: exactly the range the
//! shift operand of an instruction can encode.

use vstd::prelude::*;

verus! {

/// An unsigned 256-bit integer, split into a low and a high 128-bit limb.
#[derive(Clone, Copy, Debug, PartialEq, Eq, Structural)]
pub struct U256 {
    /// Bits 0..128 of the word.
    pub low: u128,
    /// Bits 128..256 of the word.
    pub high: u128,
}

impl U256 {
    /// The numeric value of the word.
    pub open spec fn as_nat(self) -> nat {
        (self.low + self.high * 0x1_0000_0000_0000_0000_0000_0000_0000_0000) as nat
    }

    /// The all-zero word.
    pub fn zero() -> (r: U256)
        ensures
            r == (U256 { low: 0, high: 0 }),
    {
        U256 { low: 0, high: 0 }
    }

    /// The word with value `v`.
    pub fn from_u64(v: u64) -> (r: U256)
        ensures
            r == (U256 { low: v as u128, high: 0 }),
            r.as_nat() == v,
    {
        U256 { low: v as u128, high: 0 }
    }

    /// Whether the word is zero.
    pub open spec fn spec_is_zero(&self) -> bool {
        self.low == 0 && self.high == 0
    }

    /// Whether the word is zero.
    #[verifier::when_used_as_spec(spec_is_zero)]
    pub fn is_zero(&self) -> (r: bool)
        ensures
            r == self.spec_is_zero(),
    {
        self.low == 0 && self.high == 0
    }

    /// Bitwise exclusive or, limb by limb.
    pub open spec fn xor_spec(self, other: U256) -> U256 {
        U256 { low: self.low ^ other.low, high: self.high ^ other.high }
    }

    /// Bitwise exclusive or of two words.
    pub fn xor(self, other: U256) -> (r: U256)
        ensures
            r == self.xor_spec(other),
    {
        U256 { low: self.low ^ other.low, high: self.high ^ other.high }
    }

    /// Bitwise conjunction, limb by limb.
    pub open spec fn and_spec(self, other: U256) -> U256 {
        U256 { low: self.low & other.low, high: self.high & other.high }
    }

    /// Bitwise conjunction of two words.
    pub fn and(self, other: U256) -> (r: U256)
        ensures
            r == self.and_spec(other),
    {
        U256 { low: self.low & other.low, high: self.high & other.high }
    }

    /// Bitwise disjunction, limb by limb.
    pub open spec fn or_spec(self, other: U256) -> U256 {
        U256 { low: self.low | other.low, high: self.high | other.high }
    }

    /// Bitwise disjunction of two words.
    pub fn or(self, other: U256) -> (r: U256)
        ensures
            r == self.or_spec(other),
    {
        U256 { low: self.low | other.low, high: self.high | other.high }
    }

    /// Left shift of the 256-bit word by `k` bits: bit `i` of the result is
    /// bit `i - k` of `self`, bits below `k` are zero.
    pub open spec fn shl_spec(self, k: u8) -> U256 {
        if k == 0 {
            self
        } else if k < 128 {
            U256 { low: self.low << k, high: (self.high << k) | (self.low >> ((128 - k) as u8)) }
        } else {
            U256 { low: 0, high: self.low << ((k - 128) as u8) }
        }
    }

    /// Right shift of the 256-bit word by `k` bits: bit `i` of the result is
    /// bit `i + k` of `self`, bits from `256 - k` up are zero.
    pub open spec fn shr_spec(self, k: u8) -> U256 {
        if k == 0 {
            self
        } else if k < 128 {
            U256 { low: (self.low >> k) | (self.high << ((128 - k) as u8)), high: self.high >> k }
        } else {
            U256 { low: self.high >> ((k - 128) as u8), high: 0 }
        }
    }

    /// Cyclic left rotation by `k` bits: the left shift by `k` combined with
    /// the complementary right shift by `256 - k`; rotation by zero leaves the
    /// word unchanged, since its complementary shift of 256 would fall outside
    /// the word.
    pub open spec fn rol_spec(self, k: u8) -> U256 {
        if k == 0 {
            self
        } else {
            self.shl_spec(k).or_spec(self.shr_spec((256 - k) as u8))
        }
    }

    /// Cyclic right rotation by `k` bits; rotation by zero leaves the word
    /// unchanged.
    pub open spec fn ror_spec(self, k: u8) -> U256 {
        if k == 0 {
            self
        } else {
            self.shr_spec(k).or_spec(self.shl_spec((256 - k) as u8))
        }
    }

    /// Left shift by `k` bits.
    pub fn shl(self, k: u8) -> (r: U256)
        ensures
            r == self.shl_spec(k),
    {
        if k == 0 {
            self
        } else if k < 128 {
            U256 { low: self.low << k, high: (self.high << k) | (self.low >> (128 - k)) }
        } else {
            U256 { low: 0, high: self.low << (k - 128) }
        }
    }

    /// Right shift by `k` bits.
    pub fn shr(self, k: u8) -> (r: U256)
        ensures
            r == self.shr_spec(k),
    {
        if k == 0 {
            self
        } else if k < 128 {
            U256 { low: (self.low >> k) | (self.high << (128 - k)), high: self.high >> k }
        } else {
            U256 { low: self.high >> (k - 128), high: 0 }
        }
    }

    /// Cyclic left rotation by `k` bits.
    pub fn rol(self, k: u8) -> (r: U256)
        ensures
            r == self.rol_spec(k),
    {
        if k == 0 {
            self
        } else {
            let complement = (256u16 - k as u16) as u8;
            self.shl(k).or(self.shr(complement))
        }
    }

    /// Cyclic right rotation by `k` bits.
    pub fn ror(self, k: u8) -> (r: U256)
        ensures
            r == self.ror_spec(k),
    {
        if k == 0 {
            self
        } else {
            let complement = (256u16 - k as u16) as u8;
            self.shr(k).or(self.shl(complement))
        }
    }
}

/// Rotations by the same amount in opposite directions cancel: for every
/// amount `k` in `1..=255`, rotating left then right (or right then left)
/// by `k` returns the original word; and a shift by zero is the identity.
#[verifier::rlimit(100)]
pub proof fn lemma_rotation_round_trip(a: U256, k: u8)
    requires
        1 <= k,
    ensures
        a.rol_spec(k).ror_spec(k) == a,
        a.ror_spec(k).rol_spec(k) == a,
        a.shl_spec(0) == a,
        a.shr_spec(0) == a,
{
    let al = a.low;
    let ah = a.high;
    if k < 128 {
        let b = a.rol_spec(k);
        let bl = b.low;
        let bh = b.high;
        assert(bl == (al << k) | (ah >> ((128 - k) as u8)));
        assert(bh == ((ah << k) | (al >> ((128 - k) as u8))) | 0);
        let d = b.ror_spec(k);
        assert(d.low == ((bl >> k) | (bh << ((128 - k) as u8))) | 0);
        assert(d.high == (bh >> k) | (bl << ((128 - k) as u8)));
        assert(((bl >> k) | (bh << ((128 - k) as u8))) | 0 == al && (bh >> k) | (bl << ((128
            - k) as u8)) == ah) by (bit_vector)
            requires
                0 < k < 128,
                bl == (al << k) | (ah >> ((128 - k) as u8)),
                bh == ((ah << k) | (al >> ((128 - k) as u8))) | 0,
        ;
        assert(d == a);
        let c = a.ror_spec(k);
        let cl = c.low;
        let ch = c.high;
        assert(cl == ((al >> k) | (ah << ((128 - k) as u8))) | 0);
        assert(ch == (ah >> k) | (al << ((128 - k) as u8)));
        let e = c.rol_spec(k);
        assert(e.low == (cl << k) | (ch >> ((128 - k) as u8)));
        assert(e.high == ((ch << k) | (cl >> ((128 - k) as u8))) | 0);
        assert((cl << k) | (ch >> ((128 - k) as u8)) == al && ((ch << k) | (cl >> ((128
            - k) as u8))) | 0 == ah) by (bit_vector)
            requires
                0 < k < 128,
                cl == ((al >> k) | (ah << ((128 - k) as u8))) | 0,
                ch == (ah >> k) | (al << ((128 - k) as u8)),
        ;
        assert(e == a);
    } else if k == 128 {
        let b = a.rol_spec(k);
        let bl = b.low;
        let bh = b.high;
        assert(bl == 0 | (ah >> 0));
        assert(bh == (al << 0) | 0);
        let d = b.ror_spec(k);
        assert(d.low == (bh >> 0) | 0);
        assert(d.high == 0 | (bl << 0));
        assert((bh >> 0) | 0 == al && 0 | (bl << 0) == ah) by (bit_vector)
            requires
                bl == 0 | (ah >> 0),
                bh == (al << 0) | 0,
        ;
        assert(d == a);
        let c = a.ror_spec(k);
        let cl = c.low;
        let ch = c.high;
        assert(cl == (ah >> 0) | 0);
        assert(ch == 0 | (al << 0));
        let e = c.rol_spec(k);
        assert(e.low == 0 | (ch >> 0));
        assert(e.high == (cl << 0) | 0);
        assert(0 | (ch >> 0) == al && (cl << 0) | 0 == ah) by (bit_vector)
            requires
                cl == (ah >> 0) | 0,
                ch == 0 | (al << 0),
        ;
        assert(e == a);
    } else {
        let m = (k - 128) as u8;
        // Rotating left by `k` is rotating left by `m = k - 128` with the
        // halves swapped.
        let b = a.rol_spec(k);
        let bl = b.low;
        let bh = b.high;
        assert(bl == 0 | ((al >> ((128 - m) as u8)) | (ah << m)));
        assert(bh == (al << m) | (ah >> ((128 - m) as u8)));
        let d = b.ror_spec(k);
        assert(d.low == (bh >> m) | (bl << ((128 - m) as u8)));
        assert(d.high == 0 | ((bh << ((128 - m) as u8)) | (bl >> m)));
        assert((bh >> m) | (bl << ((128 - m) as u8)) == al && 0 | ((bh << ((128 - m) as u8)) | (bl
            >> m)) == ah) by (bit_vector)
            requires
                0 < m < 128,
                bl == 0 | ((al >> ((128 - m) as u8)) | (ah << m)),
                bh == (al << m) | (ah >> ((128 - m) as u8)),
        ;
        assert(d == a);
        let c = a.ror_spec(k);
        let cl = c.low;
        let ch = c.high;
        assert(cl == (ah >> m) | (al << ((128 - m) as u8)));
        assert(ch == 0 | ((ah << ((128 - m) as u8)) | (al >> m)));
        let e = c.rol_spec(k);
        assert(e.low == 0 | ((cl >> ((128 - m) as u8)) | (ch << m)));
        assert(e.high == (cl << m) | (ch >> ((128 - m) as u8)));
        assert(0 | ((cl >> ((128 - m) as u8)) | (ch << m)) == al && (cl << m) | (ch >> ((128
            - m) as u8)) == ah) by (bit_vector)
            requires
                0 < m < 128,
                cl == (ah >> m) | (al << ((128 - m) as u8)),
                ch == 0 | ((ah << ((128 - m) as u8)) | (al >> m)),
        ;
        assert(e == a);
    }
}

} // verus!
