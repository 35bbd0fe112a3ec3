//! The fat-pointer opcode family: Add and Sub move the pointer's `offset` by
//! a checked 32-bit amount, Shrink subtracts from its `length`, Pack splices
//! a descriptor mask into the high half. Every variant demands a tagged
//! pointer as the first source and an untagged second source; any violation,
//! and any 32-bit overflow or underflow in a field, takes the shared
//! shorthand-panic transition and leaves everything but the program counter
//! and the exception indicator untouched.

use vstd::prelude::*;

use crate::catalog::{Opcode, PtrOpcode};
use crate::decode::DecodedOpcode;
use crate::pointer::FatPointer;
use crate::state::{
    dst0_write_applied, frames_with_top_pc, PreState, PrimitiveValue, VmState, PANIC_ENTRY_PC,
};
use crate::word::U256;

verus! {

/// Whether a word is small enough to serve as a pointer-offset argument:
/// the offset opcodes refuse anything of 2^32 or more instead of wrapping.
pub open spec fn offset_arg_in_range(v: U256) -> bool {
    v.high == 0 && v.low < 0x1_0000_0000
}

/// Whether a pointer opcode takes the panic transition on these sources:
/// an untagged first source or a tagged second source always panics; Add
/// and Sub also panic on an out-of-range offset argument and on 32-bit
/// overflow or underflow of the `offset` field; Pack panics when the mask's
/// low 128 bits are not all zero; Shrink panics on `length` underflow.
pub open spec fn ptr_op_panics(op: PtrOpcode, src0: PrimitiveValue, src1: PrimitiveValue) -> bool {
    ||| !src0.is_pointer
    ||| src1.is_pointer
    ||| match op {
        PtrOpcode::Add => !offset_arg_in_range(src1.value) || FatPointer::from_u256_spec(
            src0.value,
        ).offset + src1.value.low > u32::MAX,
        PtrOpcode::Sub => !offset_arg_in_range(src1.value) || FatPointer::from_u256_spec(
            src0.value,
        ).offset < src1.value.low,
        PtrOpcode::Pack => src1.value.low != 0,
        PtrOpcode::Shrink => FatPointer::from_u256_spec(src0.value).length < src1.value.low
            % 0x1_0000_0000,
    }
}

/// The word a non-panicking pointer opcode produces: the recomputed low half
/// — through the canonical field packing, so the unused low bits come out
/// clear — joined with the first source's untouched high half (for Pack,
/// with the mask's high half).
pub open spec fn ptr_op_result(op: PtrOpcode, src0: U256, src1: U256) -> U256 {
    let p = FatPointer::from_u256_spec(src0);
    match op {
        PtrOpcode::Add => U256 {
            low: (FatPointer { offset: (p.offset + src1.low) as u32, ..p }).to_u256_spec().low,
            high: src0.high,
        },
        PtrOpcode::Sub => U256 {
            low: (FatPointer { offset: (p.offset - src1.low) as u32, ..p }).to_u256_spec().low,
            high: src0.high,
        },
        PtrOpcode::Pack => U256 { low: src0.low, high: src1.high },
        PtrOpcode::Shrink => U256 {
            low: (FatPointer {
                length: (p.length - src1.low % 0x1_0000_0000) as u32,
                ..p
            }).to_u256_spec().low,
            high: src0.high,
        },
    }
}

impl DecodedOpcode {
    /// Apply a pointer opcode: on any panic condition, take the shared panic
    /// transition — program counter to the reserved panic entry, sticky
    /// exception set — and mutate nothing else; otherwise advance the program
    /// counter sequentially and deliver the recombined word with the pointer
    /// tag set. Flags are never touched.
    pub fn ptr_opcode_apply(&self, vm_state: &mut VmState, prestate: PreState)
        requires
            old(vm_state).wf(),
            self.variant.opcode is Ptr,
        ensures
            final(vm_state).wf(),
            ({
                let op = self.variant.opcode->Ptr_0;
                if ptr_op_panics(op, prestate.src0, prestate.src1) {
                    &&& final(vm_state).callstack@ == frames_with_top_pc(
                        old(vm_state).callstack@,
                        PANIC_ENTRY_PC,
                    )
                    &&& final(vm_state).pending_exception
                    &&& final(vm_state).registers@ == old(vm_state).registers@
                    &&& final(vm_state).memory_writes@ == old(vm_state).memory_writes@
                } else {
                    let out = PrimitiveValue {
                        value: ptr_op_result(op, prestate.src0.value, prestate.src1.value),
                        is_pointer: true,
                    };
                    &&& final(vm_state).callstack@ == frames_with_top_pc(
                        old(vm_state).callstack@,
                        prestate.new_pc,
                    )
                    &&& final(vm_state).pending_exception == old(vm_state).pending_exception
                    &&& dst0_write_applied(
                        *old(vm_state),
                        *final(vm_state),
                        out,
                        prestate.dst0_mem_location,
                        self.dst0_reg_idx,
                    )
                }
            }),
            final(vm_state).flags == old(vm_state).flags,
            final(vm_state).monotonic_cycle_counter == old(vm_state).monotonic_cycle_counter,
    {
        let src0 = prestate.src0;
        let src1 = prestate.src1;
        let inner = match self.variant.opcode {
            Opcode::Ptr(inner) => inner,
            _ => unreached(),
        };
        vm_state.set_pc(prestate.new_pc);
        if !src0.is_pointer {
            // the first source is not a fat pointer
            vm_state.set_shorthand_panic();
            return ;
        }
        if src1.is_pointer {
            // pointer arithmetic over two pointers is refused
            vm_state.set_shorthand_panic();
            return ;
        }
        match inner {
            PtrOpcode::Add | PtrOpcode::Sub => {
                if !(src1.value.high == 0 && src1.value.low < 0x1_0000_0000) {
                    // the offset is too far to be reasonable: bail out
                    // instead of wrapping
                    vm_state.set_shorthand_panic();
                    return ;
                }
                let fat_ptr = FatPointer::from_u256(src0.value);
                let offset = src1.value.low as u32;
                let is_add = matches!(inner, PtrOpcode::Add);
                let new_ptr_offset: u32;
                if is_add {
                    if fat_ptr.offset <= u32::MAX - offset {
                        new_ptr_offset = fat_ptr.offset + offset;
                    } else {
                        vm_state.set_shorthand_panic();
                        return ;
                    }
                } else {
                    if fat_ptr.offset >= offset {
                        new_ptr_offset = fat_ptr.offset - offset;
                    } else {
                        vm_state.set_shorthand_panic();
                        return ;
                    }
                }
                let mut new_ptr = fat_ptr;
                new_ptr.offset = new_ptr_offset;
                let ptr_word = new_ptr.to_u256();
                let result = U256 { low: ptr_word.low, high: src0.value.high };
                let out = PrimitiveValue { value: result, is_pointer: true };
                let cycle = vm_state.monotonic_cycle_counter;
                vm_state.perform_dst0_update(cycle, out, prestate.dst0_mem_location, self);
            },
            PtrOpcode::Pack => {
                if src1.value.low != 0 {
                    // the mask is not a mask: its low half must be clear
                    vm_state.set_shorthand_panic();
                    return ;
                }
                let result = U256 { low: src0.value.low, high: src1.value.high };
                let out = PrimitiveValue { value: result, is_pointer: true };
                let cycle = vm_state.monotonic_cycle_counter;
                vm_state.perform_dst0_update(cycle, out, prestate.dst0_mem_location, self);
            },
            PtrOpcode::Shrink => {
                let fat_ptr = FatPointer::from_u256(src0.value);
                let shrink_by = (src1.value.low % 0x1_0000_0000) as u32;
                if fat_ptr.length < shrink_by {
                    vm_state.set_shorthand_panic();
                    return ;
                }
                let mut new_ptr = fat_ptr;
                new_ptr.length = fat_ptr.length - shrink_by;
                let ptr_word = new_ptr.to_u256();
                let result = U256 { low: ptr_word.low, high: src0.value.high };
                let out = PrimitiveValue { value: result, is_pointer: true };
                let cycle = vm_state.monotonic_cycle_counter;
                vm_state.perform_dst0_update(cycle, out, prestate.dst0_mem_location, self);
            },
        }
    }
}

/// Moving a pointer's offset does not disturb the other fields: Add and Sub
/// keep `length`, `page` and `start`, and move `offset` by exactly the
/// argument; so a Shrink after an Add subtracts from the very length the
/// pointer had before the Add.
pub proof fn lemma_ptr_add_sub_preserves_descriptor(src0: U256, src1: U256)
    requires
        offset_arg_in_range(src1),
    ensures
        FatPointer::from_u256_spec(src0).offset + src1.low <= u32::MAX ==> ({
            let p = FatPointer::from_u256_spec(src0);
            let q = FatPointer::from_u256_spec(ptr_op_result(PtrOpcode::Add, src0, src1));
            q == (FatPointer { offset: (p.offset + src1.low) as u32, ..p })
        }),
        FatPointer::from_u256_spec(src0).offset >= src1.low ==> ({
            let p = FatPointer::from_u256_spec(src0);
            let q = FatPointer::from_u256_spec(ptr_op_result(PtrOpcode::Sub, src0, src1));
            q == (FatPointer { offset: (p.offset - src1.low) as u32, ..p })
        }),
{
    let p = FatPointer::from_u256_spec(src0);
    if p.offset + src1.low <= u32::MAX {
        let moved = FatPointer { offset: (p.offset + src1.low) as u32, ..p };
        crate::pointer::lemma_fat_pointer_pack_unpack(moved);
        let r = ptr_op_result(PtrOpcode::Add, src0, src1);
        assert(FatPointer::from_u256_spec(r).offset == moved.offset
            && FatPointer::from_u256_spec(r).length == moved.length) by {
            assert(r.low == moved.to_u256_spec().low);
        }
        assert(FatPointer::from_u256_spec(r).page == p.page && FatPointer::from_u256_spec(r).start
            == p.start);
    }
    if p.offset >= src1.low {
        let moved = FatPointer { offset: (p.offset - src1.low) as u32, ..p };
        crate::pointer::lemma_fat_pointer_pack_unpack(moved);
        let r = ptr_op_result(PtrOpcode::Sub, src0, src1);
        assert(FatPointer::from_u256_spec(r).offset == moved.offset
            && FatPointer::from_u256_spec(r).length == moved.length) by {
            assert(r.low == moved.to_u256_spec().low);
        }
    }
}

/// Adding then subtracting the same in-range offset returns the original
/// pointer bit for bit, provided the original word is in canonical form
/// (no stray bits above the `offset` and `length` fields in its low half).
pub proof fn lemma_ptr_add_sub_round_trip(src0: U256, src1: U256)
    requires
        offset_arg_in_range(src1),
        FatPointer::from_u256_spec(src0).offset + src1.low <= u32::MAX,
        src0.low == FatPointer::from_u256_spec(src0).to_u256_spec().low,
    ensures
        ptr_op_result(PtrOpcode::Sub, ptr_op_result(PtrOpcode::Add, src0, src1), src1) == src0,
{
    let p = FatPointer::from_u256_spec(src0);
    let r = ptr_op_result(PtrOpcode::Add, src0, src1);
    lemma_ptr_add_sub_preserves_descriptor(src0, src1);
    let q = FatPointer::from_u256_spec(r);
    assert(q == (FatPointer { offset: (p.offset + src1.low) as u32, ..p }));
    let s = ptr_op_result(PtrOpcode::Sub, r, src1);
    assert(q.offset >= src1.low);
    assert((FatPointer { offset: (q.offset - src1.low) as u32, ..q }) == p);
    assert(s.low == p.to_u256_spec().low);
    assert(s.high == r.high == src0.high);
    assert(s == src0);
}

} // verus!
