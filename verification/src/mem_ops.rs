//! The operand resolver: given an addressing mode, the selected register's
//! contents and an immediate, it computes the operand's current register
//! value and, for memory modes, the effective memory location — moving the
//! stack pointer when the mode implies push or pop semantics.
//!
//! The stack-pointer mutation of the push/pop mode happens here, during
//! resolution, whether or not the consuming opcode ever uses the resolved
//! value: addressing-mode side effects are independent of opcode semantics.

use vstd::arithmetic::div_mod::{
    lemma_fundamental_div_mod_converse, lemma_mod_multiples_vanish, lemma_small_mod,
};
use vstd::prelude::*;

use crate::modifiers::{ImmMemHandlerFlags, Operand, RegOrImmFlags};
use crate::state::{
    CallStackEntry, MemoryLocation, MemoryType, PrimitiveValue, VmState,
    STACK_PAGE_OFFSET_FROM_BASE,
};
use crate::word::U256;

verus! {

/// 16-bit wrapping addition, as the stack pointer and virtual addresses use.
pub open spec fn u16_wrapping_add(a: u16, b: u16) -> u16 {
    ((a + b) % 0x1_0000) as u16
}

/// 16-bit wrapping subtraction.
pub open spec fn u16_wrapping_sub(a: u16, b: u16) -> u16 {
    ((a + 0x1_0000 - b) % 0x1_0000) as u16
}

/// The 16-bit virtual address an operand encodes: the low 16 bits of the
/// selected register's value plus the immediate, wrapping.
pub open spec fn vaddr_spec(reg_value: U256, imm: u16) -> u16 {
    u16_wrapping_add((reg_value.low % 0x1_0000) as u16, imm)
}

/// The operand resolver's own state: the active stack pointer of the
/// current frame.
pub struct MemOpsProcessor {
    pub sp: u16,
}

impl MemOpsProcessor {
    /// Resolve one operand. The first component of the result is always the
    /// selected register's current value; the second is the effective memory
    /// location for the memory modes:
    ///
    /// - register-only and immediate forms touch no memory;
    /// - stack push/pop: a write is a push — the location uses the
    ///   pre-increment stack pointer, then the pointer grows by the virtual
    ///   address; a read is a pop — the pointer shrinks first, the location
    ///   uses the new value;
    /// - stack offset: the location sits at `sp - vaddr`; the pointer itself
    ///   never moves;
    /// - absolute stack: the location index is the virtual address verbatim;
    /// - code page: a read from the current frame's code page.
    ///
    /// Immediate-only destinations are illegal and rejected before this
    /// stage, as are code-page writes.
    pub fn compute_addresses_and_select_operands(
        &mut self,
        vm_state: &VmState,
        register_index_encoding: u8,
        imm: u16,
        mem_imm: Operand,
        is_write: bool,
    ) -> (r: (PrimitiveValue, Option<MemoryLocation>))
        requires
            vm_state.wf(),
            mem_imm == Operand::RegOrImm(RegOrImmFlags::UseImm16Only) || mem_imm == Operand::Full(
                ImmMemHandlerFlags::UseImm16Only,
            ) || mem_imm == Operand::Full(ImmMemHandlerFlags::UseCodePage) ==> !is_write,
        ensures
            r.0 == vm_state.select_register_spec(register_index_encoding),
            ({
                let vaddr = vaddr_spec(
                    vm_state.select_register_spec(register_index_encoding).value,
                    imm,
                );
                let stack_page = (vm_state.current_frame().base_memory_page
                    + STACK_PAGE_OFFSET_FROM_BASE) as u32;
                match mem_imm {
                    Operand::RegOnly => r.1 is None && final(self).sp == old(self).sp,
                    Operand::RegOrImm(_) => r.1 is None && final(self).sp == old(self).sp,
                    Operand::Full(mode) => match mode {
                        ImmMemHandlerFlags::UseRegOnly => r.1 is None && final(self).sp == old(
                            self,
                        ).sp,
                        ImmMemHandlerFlags::UseImm16Only => r.1 is None && final(self).sp == old(
                            self,
                        ).sp,
                        ImmMemHandlerFlags::UseStackWithPushPop => if is_write {
                            &&& final(self).sp == u16_wrapping_add(old(self).sp, vaddr)
                            &&& r.1 == Some(
                                MemoryLocation {
                                    memory_type: MemoryType::Stack,
                                    page: stack_page,
                                    index: old(self).sp as u32,
                                },
                            )
                        } else {
                            &&& final(self).sp == u16_wrapping_sub(old(self).sp, vaddr)
                            &&& r.1 == Some(
                                MemoryLocation {
                                    memory_type: MemoryType::Stack,
                                    page: stack_page,
                                    index: u16_wrapping_sub(old(self).sp, vaddr) as u32,
                                },
                            )
                        },
                        ImmMemHandlerFlags::UseStackWithOffset => {
                            &&& final(self).sp == old(self).sp
                            &&& r.1 == Some(
                                MemoryLocation {
                                    memory_type: MemoryType::Stack,
                                    page: stack_page,
                                    index: u16_wrapping_sub(old(self).sp, vaddr) as u32,
                                },
                            )
                        },
                        ImmMemHandlerFlags::UseAbsoluteOnStack => {
                            &&& final(self).sp == old(self).sp
                            &&& r.1 == Some(
                                MemoryLocation {
                                    memory_type: MemoryType::Stack,
                                    page: stack_page,
                                    index: vaddr as u32,
                                },
                            )
                        },
                        ImmMemHandlerFlags::UseCodePage => {
                            &&& final(self).sp == old(self).sp
                            &&& r.1 == Some(
                                MemoryLocation {
                                    memory_type: MemoryType::Code,
                                    page: vm_state.current_frame().code_page,
                                    index: vaddr as u32,
                                },
                            )
                        },
                    },
                }
            }),
    {
        let primitive_value = vm_state.select_register_value(register_index_encoding);
        let reg_low = (primitive_value.value.low % 0x1_0000) as u16;
        let vaddr = ((reg_low as u32 + imm as u32) % 0x1_0000) as u16;
        let top = vm_state.callstack.len() - 1;
        let current_context = vm_state.callstack[top];
        proof {
            assert(vm_state.callstack@[top as int].wf());
        }
        let memory_location: Option<MemoryLocation> = match mem_imm {
            Operand::RegOnly => None,
            Operand::RegOrImm(RegOrImmFlags::UseRegOnly) => None,
            Operand::RegOrImm(RegOrImmFlags::UseImm16Only) => None,
            Operand::Full(ImmMemHandlerFlags::UseRegOnly) => None,
            Operand::Full(ImmMemHandlerFlags::UseImm16Only) => None,
            Operand::Full(ImmMemHandlerFlags::UseStackWithPushPop) => {
                let current_sp = self.sp;
                let stack_page = CallStackEntry::stack_page_from_base(
                    current_context.base_memory_page,
                );
                if is_write {
                    // a generalized push: the location uses the old stack
                    // pointer, then the pointer grows
                    let new_sp = ((current_sp as u32 + vaddr as u32) % 0x1_0000) as u16;
                    self.sp = new_sp;
                    Some(
                        MemoryLocation {
                            memory_type: MemoryType::Stack,
                            page: stack_page,
                            index: current_sp as u32,
                        },
                    )
                } else {
                    // a generalized pop: the pointer shrinks first, the
                    // location uses the new value
                    let new_sp = ((current_sp as u32 + 0x1_0000 - vaddr as u32) % 0x1_0000) as u16;
                    self.sp = new_sp;
                    Some(
                        MemoryLocation {
                            memory_type: MemoryType::Stack,
                            page: stack_page,
                            index: new_sp as u32,
                        },
                    )
                }
            },
            Operand::Full(ImmMemHandlerFlags::UseStackWithOffset) => {
                let offset = ((self.sp as u32 + 0x1_0000 - vaddr as u32) % 0x1_0000) as u16;
                let stack_page = CallStackEntry::stack_page_from_base(
                    current_context.base_memory_page,
                );
                Some(
                    MemoryLocation {
                        memory_type: MemoryType::Stack,
                        page: stack_page,
                        index: offset as u32,
                    },
                )
            },
            Operand::Full(ImmMemHandlerFlags::UseCodePage) => {
                let code_page = current_context.code_page;
                Some(
                    MemoryLocation {
                        memory_type: MemoryType::Code,
                        page: code_page,
                        index: vaddr as u32,
                    },
                )
            },
            Operand::Full(ImmMemHandlerFlags::UseAbsoluteOnStack) => {
                let stack_page = CallStackEntry::stack_page_from_base(
                    current_context.base_memory_page,
                );
                Some(
                    MemoryLocation {
                        memory_type: MemoryType::Stack,
                        page: stack_page,
                        index: vaddr as u32,
                    },
                )
            },
        };
        (primitive_value, memory_location)
    }
}

/// The stack push/pop round trip: resolving a push and then a pop with the
/// same displacement restores the original stack pointer, and the other way
/// round.
pub proof fn lemma_push_pop_restores_sp(sp: u16, displacement: u16)
    ensures
        u16_wrapping_sub(u16_wrapping_add(sp, displacement), displacement) == sp,
        u16_wrapping_add(u16_wrapping_sub(sp, displacement), displacement) == sp,
{
    let m = 0x1_0000int;
    let s = u16_wrapping_add(sp, displacement);
    if sp + displacement < m {
        lemma_small_mod((sp + displacement) as nat, m as nat);
        assert(s == sp + displacement);
        lemma_mod_multiples_vanish(1, sp as int, m);
        lemma_small_mod(sp as nat, m as nat);
    } else {
        lemma_fundamental_div_mod_converse(sp + displacement, m, 1, sp + displacement - m);
        assert(s == sp + displacement - m);
        lemma_small_mod(sp as nat, m as nat);
    }
    let t = u16_wrapping_sub(sp, displacement);
    if sp >= displacement {
        lemma_mod_multiples_vanish(1, sp - displacement, m);
        lemma_small_mod((sp - displacement) as nat, m as nat);
        assert(t == sp - displacement);
        lemma_mod_multiples_vanish(1, sp as int, m);
        lemma_small_mod(sp as nat, m as nat);
    } else {
        lemma_small_mod((sp + m - displacement) as nat, m as nat);
        assert(t == sp + m - displacement);
        lemma_mod_multiples_vanish(1, sp as int, m);
        lemma_small_mod(sp as nat, m as nat);
    }
}

} // verus!
