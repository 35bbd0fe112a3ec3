//! The no-operation opcode: the program counter advances sequentially and
//! nothing is written. Any stack-pointer side effect of resolving its unused
//! operands has already happened in the operand resolver — addressing-mode
//! side effects are independent of opcode semantics.

use vstd::prelude::*;

use crate::decode::DecodedOpcode;
use crate::state::{frames_with_top_pc, PreState, VmState};

verus! {

impl DecodedOpcode {
    /// Apply a no-operation: advance the program counter sequentially;
    /// nothing else changes.
    pub fn noop_opcode_apply(&self, vm_state: &mut VmState, prestate: PreState)
        requires
            old(vm_state).wf(),
        ensures
            final(vm_state).wf(),
            final(vm_state).callstack@ == frames_with_top_pc(
                old(vm_state).callstack@,
                prestate.new_pc,
            ),
            final(vm_state).registers@ == old(vm_state).registers@,
            final(vm_state).flags == old(vm_state).flags,
            final(vm_state).monotonic_cycle_counter == old(vm_state).monotonic_cycle_counter,
            final(vm_state).pending_exception == old(vm_state).pending_exception,
            final(vm_state).memory_writes@ == old(vm_state).memory_writes@,
    {
        vm_state.set_pc(prestate.new_pc);
    }
}

} // verus!
