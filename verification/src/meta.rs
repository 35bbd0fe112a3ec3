//! The VM meta parameters a kernel query exposes as one 256-bit word, with
//! their fixed packing: the pubdata price in word bits 0..32, the two heap
//! sizes in bits 64..128, and the three shard identifiers in bits 224..248.

use vstd::prelude::*;

use crate::word::U256;

verus! {

/// The per-context meta parameters the interpreter can hand to kernel code.
#[derive(Clone, Copy, Debug, PartialEq, Eq, Structural)]
pub struct VmMetaParameters {
    pub ergs_per_pubdata_byte: u32,
    pub heap_size: u32,
    pub aux_heap_size: u32,
    pub this_shard_id: u8,
    pub caller_shard_id: u8,
    pub code_shard_id: u8,
}

impl VmMetaParameters {
    /// Pack the parameters into their 256-bit word: the pubdata price in the
    /// lowest 32 bits, heap size in bits 64..96, auxiliary heap size in bits
    /// 96..128, and the three shard identifiers — this, caller, code — in
    /// bits 224..232, 232..240 and 240..248.
    pub fn to_u256(self) -> (r: U256)
        ensures
            r.low == self.ergs_per_pubdata_byte + (self.heap_size + self.aux_heap_size
                * 0x1_0000_0000) * 0x1_0000_0000_0000_0000,
            r.high == (self.this_shard_id + self.caller_shard_id * 0x100 + self.code_shard_id
                * 0x1_0000) * 0x1_0000_0000 * 0x1_0000_0000_0000_0000,
    {
        let low = self.ergs_per_pubdata_byte as u128 + (self.heap_size as u128
            + self.aux_heap_size as u128 * 0x1_0000_0000) * 0x1_0000_0000_0000_0000;
        let shards = self.this_shard_id as u128 + self.caller_shard_id as u128 * 0x100
            + self.code_shard_id as u128 * 0x1_0000;
        let high = shards * 0x1_0000_0000 * 0x1_0000_0000_0000_0000;
        U256 { low, high }
    }
}

} // verus!
