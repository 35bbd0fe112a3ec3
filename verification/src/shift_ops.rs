//! The shift opcode family: plain left/right shifts and cyclic rotations
//! over the full 256-bit word. The shift amount is the low 8 bits of the
//! second source's low limb; a cyclic rotation by zero is a no-op, since its
//! complementary shift of 256 would fall outside the word.

use vstd::prelude::*;

use crate::catalog::{Opcode, ShiftOpcode, SET_FLAGS_FLAG_IDX};
use crate::decode::DecodedOpcode;
use crate::state::{
    dst0_write_applied, flags_after_set, frames_with_top_pc, PreState, PrimitiveValue, VmState,
};
use crate::word::U256;

verus! {

/// The shift amount an operand word encodes: its low 8 bits.
pub open spec fn shift_amount_spec(v: U256) -> u8 {
    (v.low % 256) as u8
}

/// The word a shift opcode produces from its first source and the amount.
pub open spec fn shift_result(op: ShiftOpcode, a: U256, k: u8) -> U256 {
    match op {
        ShiftOpcode::Shl => a.shl_spec(k),
        ShiftOpcode::Shr => a.shr_spec(k),
        ShiftOpcode::Rol => a.rol_spec(k),
        ShiftOpcode::Ror => a.ror_spec(k),
    }
}

impl DecodedOpcode {
    /// Apply a shift opcode: advance the program counter sequentially, shift
    /// or rotate the first source by the amount the second source's low 8
    /// bits give, update the flag block when requested, and deliver an
    /// untagged result.
    pub fn shift_opcode_apply(&self, vm_state: &mut VmState, prestate: PreState)
        requires
            old(vm_state).wf(),
            self.variant.opcode is Shift,
        ensures
            final(vm_state).wf(),
            ({
                let result = shift_result(
                    self.variant.opcode->Shift_0,
                    prestate.src0.value,
                    shift_amount_spec(prestate.src1.value),
                );
                let out = PrimitiveValue { value: result, is_pointer: false };
                &&& final(vm_state).callstack@ == frames_with_top_pc(
                    old(vm_state).callstack@,
                    prestate.new_pc,
                )
                &&& final(vm_state).flags == (if self.variant.set_flags() {
                    flags_after_set(result.spec_is_zero())
                } else {
                    old(vm_state).flags
                })
                &&& dst0_write_applied(
                    *old(vm_state),
                    *final(vm_state),
                    out,
                    prestate.dst0_mem_location,
                    self.dst0_reg_idx,
                )
                &&& final(vm_state).monotonic_cycle_counter == old(
                    vm_state,
                ).monotonic_cycle_counter
                &&& final(vm_state).pending_exception == old(vm_state).pending_exception
            }),
    {
        let src0 = prestate.src0.value;
        let src1 = prestate.src1.value;
        let inner = match self.variant.opcode {
            Opcode::Shift(inner) => inner,
            _ => unreached(),
        };
        let set_flags = self.variant.flags[SET_FLAGS_FLAG_IDX];
        vm_state.set_pc(prestate.new_pc);
        let shift_abs = (src1.low % 256) as u8;
        let result = match inner {
            ShiftOpcode::Shl => src0.shl(shift_abs),
            ShiftOpcode::Shr => src0.shr(shift_abs),
            ShiftOpcode::Rol => src0.rol(shift_abs),
            ShiftOpcode::Ror => src0.ror(shift_abs),
        };
        if set_flags {
            let eq = result.is_zero();
            vm_state.reset_flags();
            vm_state.flags.equality_flag = eq;
        }
        let out = PrimitiveValue { value: result, is_pointer: false };
        let cycle = vm_state.monotonic_cycle_counter;
        vm_state.perform_dst0_update(cycle, out, prestate.dst0_mem_location, self);
    }
}

} // verus!
