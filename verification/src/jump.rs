//! The unconditional jump opcode: the new program counter is the low 16 bits
//! of the first source's integer value — its pointer tag and high bits are
//! ignored.

use vstd::prelude::*;

use crate::decode::DecodedOpcode;
use crate::state::{frames_with_top_pc, PreState, VmState};
use crate::word::U256;

verus! {

/// The jump destination an operand word encodes: its low 16 bits.
pub open spec fn jump_destination_spec(v: U256) -> u16 {
    (v.low % 0x1_0000) as u16
}

impl DecodedOpcode {
    /// Apply a jump: overwrite the program counter with the low 16 bits of
    /// the first source's value, ignoring the supplied sequential successor;
    /// nothing else changes.
    pub fn jump_opcode_apply(&self, vm_state: &mut VmState, prestate: PreState)
        requires
            old(vm_state).wf(),
        ensures
            final(vm_state).wf(),
            final(vm_state).callstack@ == frames_with_top_pc(
                old(vm_state).callstack@,
                jump_destination_spec(prestate.src0.value),
            ),
            final(vm_state).registers@ == old(vm_state).registers@,
            final(vm_state).flags == old(vm_state).flags,
            final(vm_state).monotonic_cycle_counter == old(vm_state).monotonic_cycle_counter,
            final(vm_state).pending_exception == old(vm_state).pending_exception,
            final(vm_state).memory_writes@ == old(vm_state).memory_writes@,
    {
        let dest_pc = (prestate.src0.value.low % 0x1_0000) as u16;
        vm_state.set_pc(dest_pc);
    }
}

} // verus!
