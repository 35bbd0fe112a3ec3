//! The bitwise opcode family: Xor, And and Or over full 256-bit words.
//! Input pointer tags are ignored for the computation and the output tag is
//! always cleared.

use vstd::prelude::*;

use crate::catalog::{BinopOpcode, Opcode, SET_FLAGS_FLAG_IDX};
use crate::decode::DecodedOpcode;
use crate::state::{
    dst0_write_applied, flags_after_set, frames_with_top_pc, PreState, PrimitiveValue, VmState,
};
use crate::word::U256;

verus! {

/// The word a bitwise opcode produces from its two source words.
pub open spec fn binop_result(op: BinopOpcode, a: U256, b: U256) -> U256 {
    match op {
        BinopOpcode::Xor => a.xor_spec(b),
        BinopOpcode::And => a.and_spec(b),
        BinopOpcode::Or => a.or_spec(b),
    }
}

impl DecodedOpcode {
    /// Apply a bitwise opcode: advance the program counter sequentially,
    /// combine the source words limb by limb ignoring their tags, reset the
    /// flag block and report a zero result in the equality flag when the
    /// variant requests flags, and deliver an untagged result.
    pub fn binop_opcode_apply(&self, vm_state: &mut VmState, prestate: PreState)
        requires
            old(vm_state).wf(),
            self.variant.opcode is Binop,
        ensures
            final(vm_state).wf(),
            ({
                let result = binop_result(
                    self.variant.opcode->Binop_0,
                    prestate.src0.value,
                    prestate.src1.value,
                );
                let out = PrimitiveValue { value: result, is_pointer: false };
                &&& final(vm_state).callstack@ == frames_with_top_pc(
                    old(vm_state).callstack@,
                    prestate.new_pc,
                )
                &&& final(vm_state).flags == (if self.variant.set_flags() {
                    flags_after_set(result.spec_is_zero())
                } else {
                    old(vm_state).flags
                })
                &&& dst0_write_applied(
                    *old(vm_state),
                    *final(vm_state),
                    out,
                    prestate.dst0_mem_location,
                    self.dst0_reg_idx,
                )
                &&& final(vm_state).monotonic_cycle_counter == old(
                    vm_state,
                ).monotonic_cycle_counter
                &&& final(vm_state).pending_exception == old(vm_state).pending_exception
            }),
    {
        let src0 = prestate.src0.value;
        let src1 = prestate.src1.value;
        let inner = match self.variant.opcode {
            Opcode::Binop(inner) => inner,
            _ => unreached(),
        };
        let set_flags = self.variant.flags[SET_FLAGS_FLAG_IDX];
        vm_state.set_pc(prestate.new_pc);
        let result = match inner {
            BinopOpcode::Xor => src0.xor(src1),
            BinopOpcode::And => src0.and(src1),
            BinopOpcode::Or => src0.or(src1),
        };
        if set_flags {
            let eq = result.is_zero();
            vm_state.reset_flags();
            vm_state.flags.equality_flag = eq;
        }
        let out = PrimitiveValue { value: result, is_pointer: false };
        let cycle = vm_state.monotonic_cycle_counter;
        vm_state.perform_dst0_update(cycle, out, prestate.dst0_mem_location, self);
    }
}

} // verus!
