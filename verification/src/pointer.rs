//! The fat-pointer bit layout: a bounded view into memory, packed into a
//! 256-bit word.
//!
//! The low 128 bits of the word carry the mutable fields — `offset` in word
//! bits 0..32 and `length` in bits 32..64, the rest of the low half unused —
//! and the high 128 bits carry the immutable descriptor: `page` in word bits
//! 128..160 and `start` in bits 160..192. Every pointer-producing opcode
//! keeps the high half of its first source unchanged and recomputes only the
//! low half.

use vstd::arithmetic::div_mod::{
    lemma_fundamental_div_mod_converse, lemma_mod_breakdown, lemma_small_mod,
};
use vstd::prelude::*;

use crate::word::U256;

verus! {

/// A fat pointer: a bounded window into one memory page, with a running
/// offset inside the window.
#[derive(Clone, Copy, Debug, PartialEq, Eq, Structural)]
pub struct FatPointer {
    pub offset: u32,
    pub length: u32,
    pub page: u32,
    pub start: u32,
}

impl FatPointer {
    /// The fields a 256-bit word carries, read off by the fixed layout.
    pub open spec fn from_u256_spec(v: U256) -> FatPointer {
        FatPointer {
            offset: (v.low % 0x1_0000_0000) as u32,
            length: ((v.low / 0x1_0000_0000) % 0x1_0000_0000) as u32,
            page: (v.high % 0x1_0000_0000) as u32,
            start: ((v.high / 0x1_0000_0000) % 0x1_0000_0000) as u32,
        }
    }

    /// Read the pointer fields out of a 256-bit word.
    pub fn from_u256(v: U256) -> (r: FatPointer)
        ensures
            r == FatPointer::from_u256_spec(v),
    {
        FatPointer {
            offset: (v.low % 0x1_0000_0000) as u32,
            length: ((v.low / 0x1_0000_0000) % 0x1_0000_0000) as u32,
            page: (v.high % 0x1_0000_0000) as u32,
            start: ((v.high / 0x1_0000_0000) % 0x1_0000_0000) as u32,
        }
    }

    /// The canonical word a pointer packs to: only the field bits are set.
    pub open spec fn to_u256_spec(self) -> U256 {
        U256 {
            low: (self.offset + self.length * 0x1_0000_0000) as u128,
            high: (self.page + self.start * 0x1_0000_0000) as u128,
        }
    }

    /// Pack the pointer fields into their canonical 256-bit word.
    pub fn to_u256(self) -> (r: U256)
        ensures
            r == self.to_u256_spec(),
    {
        U256 {
            low: self.offset as u128 + self.length as u128 * 0x1_0000_0000,
            high: self.page as u128 + self.start as u128 * 0x1_0000_0000,
        }
    }
}

/// Packing then unpacking recovers every field: the field layout loses
/// nothing.
pub proof fn lemma_fat_pointer_pack_unpack(p: FatPointer)
    ensures
        FatPointer::from_u256_spec(p.to_u256_spec()) == p,
{
    let low: int = p.offset + p.length * 0x1_0000_0000;
    lemma_fundamental_div_mod_converse(low, 0x1_0000_0000, p.length as int, p.offset as int);
    lemma_small_mod(p.length as nat, 0x1_0000_0000);
    let high: int = p.page + p.start * 0x1_0000_0000;
    lemma_fundamental_div_mod_converse(high, 0x1_0000_0000, p.start as int, p.page as int);
    lemma_small_mod(p.start as nat, 0x1_0000_0000);
}

/// Unpacking a word and packing the fields again keeps exactly the field
/// bits: each limb is reduced to its low 64 bits, the unused bits clear.
pub proof fn lemma_fat_pointer_unpack_pack(v: U256)
    ensures
        FatPointer::from_u256_spec(v).to_u256_spec().low == v.low
            % 0x1_0000_0000_0000_0000,
        FatPointer::from_u256_spec(v).to_u256_spec().high == v.high
            % 0x1_0000_0000_0000_0000,
{
    lemma_mod_breakdown(v.low as int, 0x1_0000_0000, 0x1_0000_0000);
    lemma_mod_breakdown(v.high as int, 0x1_0000_0000, 0x1_0000_0000);
}

} // verus!
