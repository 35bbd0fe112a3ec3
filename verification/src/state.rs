//! The per-instance interpreter state: the tagged register file, the flags
//! record, the call stack of frames, the cycle counter, and the write log
//! through which destination updates reach the external memory backend.
//!
//! Register index convention: the 4-bit index `0` names the constant-zero
//! register — it reads as the empty value and writes to it are dropped;
//! indices `1..=15` name the fifteen general registers.

use vstd::prelude::*;

use crate::decode::DecodedOpcode;
use crate::word::U256;
use crate::REGISTERS_COUNT;

verus! {

/// The reserved program-counter value of the shorthand-panic handler.
pub const PANIC_ENTRY_PC: u16 = 0xFFFF;

/// Pages allocated per call frame follow its base page by a fixed offset:
/// the code page is the base itself.
pub const CODE_PAGE_OFFSET_FROM_BASE: u32 = 0;

/// Offset of a frame's stack page from its base page.
pub const STACK_PAGE_OFFSET_FROM_BASE: u32 = 1;

/// Offset of a frame's heap page from its base page.
pub const HEAP_PAGE_OFFSET_FROM_BASE: u32 = 2;

/// Offset of a frame's auxiliary heap page from its base page.
pub const AUX_HEAP_PAGE_OFFSET_FROM_BASE: u32 = 3;

/// One 256-bit register or memory cell: the integer bits together with the
/// orthogonal pointer tag. Arithmetic opcodes ignore the input tags and clear
/// the output tag; only the pointer family reads the bits structurally.
#[derive(Clone, Copy, Debug, PartialEq, Eq, Structural)]
pub struct PrimitiveValue {
    pub value: U256,
    pub is_pointer: bool,
}

impl PrimitiveValue {
    /// The empty cell: integer zero, no pointer tag.
    pub open spec fn empty_spec() -> PrimitiveValue {
        PrimitiveValue { value: U256 { low: 0, high: 0 }, is_pointer: false }
    }

    /// The empty cell: integer zero, no pointer tag.
    pub fn empty() -> (r: PrimitiveValue)
        ensures
            r == PrimitiveValue::empty_spec(),
    {
        PrimitiveValue { value: U256 { low: 0, high: 0 }, is_pointer: false }
    }
}

/// Which kind of page a memory location addresses.
#[derive(Clone, Copy, Debug, PartialEq, Eq, Structural)]
pub enum MemoryType {
    Stack,
    Heap,
    AuxHeap,
    Code,
}

/// One word-addressable cell of the external memory backend.
#[derive(Clone, Copy, Debug, PartialEq, Eq, Structural)]
pub struct MemoryLocation {
    pub memory_type: MemoryType,
    pub page: u32,
    pub index: u32,
}

/// One pending write to the external memory backend, stamped with the cycle
/// that produced it. The backend owner drains the log in order.
#[derive(Clone, Copy, Debug, PartialEq, Eq, Structural)]
pub struct MemoryWriteQuery {
    pub timestamp: u32,
    pub location: MemoryLocation,
    pub value: PrimitiveValue,
}

/// The flags record. Flags are always written as a block: an opcode that
/// sets flags first resets all of them.
#[derive(Clone, Copy, Debug, PartialEq, Eq, Structural)]
pub struct Flags {
    pub overflow_or_less_than_flag: bool,
    pub equality_flag: bool,
    pub greater_than_flag: bool,
}

impl Flags {
    /// All flags cleared.
    pub open spec fn cleared() -> Flags {
        Flags { overflow_or_less_than_flag: false, equality_flag: false, greater_than_flag: false }
    }
}

/// One call-stack frame: program counter, stack pointer, the memory pages
/// the call owns, its privilege bits and its remaining ergs.
#[derive(Clone, Copy, Debug, PartialEq, Eq, Structural)]
pub struct CallStackEntry {
    pub pc: u16,
    pub sp: u16,
    pub base_memory_page: u32,
    pub code_page: u32,
    pub ergs_remaining: u32,
    pub is_kernel_mode: bool,
    pub is_static: bool,
}

impl CallStackEntry {
    /// A frame's pages fit the page-offset convention.
    pub open spec fn wf(self) -> bool {
        self.base_memory_page <= u32::MAX - AUX_HEAP_PAGE_OFFSET_FROM_BASE
    }

    /// The stack page a frame with base page `base` owns.
    pub fn stack_page_from_base(base: u32) -> (r: u32)
        requires
            base <= u32::MAX - AUX_HEAP_PAGE_OFFSET_FROM_BASE,
        ensures
            r == base + STACK_PAGE_OFFSET_FROM_BASE,
    {
        base + STACK_PAGE_OFFSET_FROM_BASE
    }

    /// The heap page a frame with base page `base` owns.
    pub fn heap_page_from_base(base: u32) -> (r: u32)
        requires
            base <= u32::MAX - AUX_HEAP_PAGE_OFFSET_FROM_BASE,
        ensures
            r == base + HEAP_PAGE_OFFSET_FROM_BASE,
    {
        base + HEAP_PAGE_OFFSET_FROM_BASE
    }

    /// The auxiliary heap page a frame with base page `base` owns.
    pub fn aux_heap_page_from_base(base: u32) -> (r: u32)
        requires
            base <= u32::MAX - AUX_HEAP_PAGE_OFFSET_FROM_BASE,
        ensures
            r == base + AUX_HEAP_PAGE_OFFSET_FROM_BASE,
    {
        base + AUX_HEAP_PAGE_OFFSET_FROM_BASE
    }
}

/// The operand bundle a handler consumes, fully resolved by the operand
/// resolver: both source values, the optional destination location, and the
/// sequential successor of the program counter.
#[derive(Clone, Copy, Debug, PartialEq, Eq, Structural)]
pub struct PreState {
    pub src0: PrimitiveValue,
    pub src1: PrimitiveValue,
    pub dst0_mem_location: Option<MemoryLocation>,
    pub new_pc: u16,
}

/// The register file after a write through the 4-bit register index `idx`:
/// index zero is the constant-zero register, whose writes are dropped.
pub open spec fn reg_file_after_write(
    regs: Seq<PrimitiveValue>,
    idx: u8,
    value: PrimitiveValue,
) -> Seq<PrimitiveValue> {
    if idx % 16 == 0 {
        regs
    } else {
        regs.update(idx % 16 - 1, value)
    }
}

/// The call stack after overwriting the top frame's program counter.
pub open spec fn frames_with_top_pc(frames: Seq<CallStackEntry>, pc: u16) -> Seq<CallStackEntry> {
    frames.update(frames.len() - 1, CallStackEntry { pc, ..frames.last() })
}

/// How a handler's destination value lands: appended to the memory write log
/// when the resolver produced a location, written to the decoded destination
/// register otherwise — the other channel stays untouched.
pub open spec fn dst0_write_applied(
    pre: VmState,
    post: VmState,
    value: PrimitiveValue,
    dst0_mem_location: Option<MemoryLocation>,
    dst0_reg_idx: u8,
) -> bool {
    match dst0_mem_location {
        Some(location) => {
            &&& post.memory_writes@ == pre.memory_writes@.push(
                MemoryWriteQuery { timestamp: pre.monotonic_cycle_counter, location, value },
            )
            &&& post.registers@ == pre.registers@
        },
        None => {
            &&& post.registers@ == reg_file_after_write(pre.registers@, dst0_reg_idx, value)
            &&& post.memory_writes@ == pre.memory_writes@
        },
    }
}

/// The flags record an opcode that requests the flag update leaves behind:
/// the block is reset wholesale and the equality flag reports a zero result.
pub open spec fn flags_after_set(result_is_zero: bool) -> Flags {
    Flags {
        overflow_or_less_than_flag: false,
        equality_flag: result_is_zero,
        greater_than_flag: false,
    }
}

/// The local state of one interpreter instance.
pub struct VmState {
    /// The fifteen general registers.
    pub registers: Vec<PrimitiveValue>,
    pub flags: Flags,
    /// The call stack; the last entry is the current frame. The bottom frame
    /// is created at construction and never popped.
    pub callstack: Vec<CallStackEntry>,
    pub monotonic_cycle_counter: u32,
    /// The sticky exception indicator the shorthand-panic transition sets.
    pub pending_exception: bool,
    /// Pending writes to the external memory backend, in issue order.
    pub memory_writes: Vec<MemoryWriteQuery>,
}

impl VmState {
    /// Well-formed state: a full register file and a never-empty call stack
    /// of frames whose pages fit the page-offset convention.
    pub open spec fn wf(self) -> bool {
        &&& self.registers@.len() == REGISTERS_COUNT
        &&& self.callstack@.len() >= 1
        &&& forall|i: int| 0 <= i < self.callstack@.len() ==> #[trigger] self.callstack@[i].wf()
    }

    /// The current frame: the top of the call stack.
    pub open spec fn current_frame(self) -> CallStackEntry {
        self.callstack@.last()
    }

    /// A fresh instance: empty registers, cleared flags, a single bottom
    /// frame, cycle counter zero, no exception, no pending writes.
    pub fn new(bottom_frame: CallStackEntry) -> (r: VmState)
        requires
            bottom_frame.wf(),
        ensures
            r.wf(),
            r.registers@ =~= Seq::new(REGISTERS_COUNT as nat, |i: int| PrimitiveValue::empty_spec()),
            r.flags == Flags::cleared(),
            r.callstack@ =~= seq![bottom_frame],
            r.monotonic_cycle_counter == 0,
            !r.pending_exception,
            r.memory_writes@ =~= Seq::<MemoryWriteQuery>::empty(),
    {
        let mut registers: Vec<PrimitiveValue> = Vec::new();
        let mut i: usize = 0;
        while i < REGISTERS_COUNT
            invariant
                i <= REGISTERS_COUNT,
                registers@.len() == i,
                forall|j: int| 0 <= j < i ==> registers@[j] == PrimitiveValue::empty_spec(),
            decreases REGISTERS_COUNT - i,
        {
            registers.push(PrimitiveValue::empty());
            i += 1;
        }
        let mut callstack: Vec<CallStackEntry> = Vec::new();
        callstack.push(bottom_frame);
        let r = VmState {
            registers,
            flags: Flags {
                overflow_or_less_than_flag: false,
                equality_flag: false,
                greater_than_flag: false,
            },
            callstack,
            monotonic_cycle_counter: 0,
            pending_exception: false,
            memory_writes: Vec::new(),
        };
        proof {
            assert(r.registers@ =~= Seq::new(
                REGISTERS_COUNT as nat,
                |i: int| PrimitiveValue::empty_spec(),
            ));
            assert(r.callstack@ =~= seq![bottom_frame]);
        }
        r
    }

    /// The value a 4-bit register index selects: the empty value for index
    /// zero, the named register otherwise.
    pub open spec fn select_register_spec(self, register_index_encoding: u8) -> PrimitiveValue {
        if register_index_encoding % 16 == 0 {
            PrimitiveValue::empty_spec()
        } else {
            self.registers@[register_index_encoding % 16 - 1]
        }
    }

    /// Read the register the 4-bit index selects.
    pub fn select_register_value(&self, register_index_encoding: u8) -> (r: PrimitiveValue)
        requires
            self.wf(),
        ensures
            r == self.select_register_spec(register_index_encoding),
    {
        let idx = register_index_encoding % 16;
        if idx == 0 {
            PrimitiveValue::empty()
        } else {
            self.registers[(idx - 1) as usize]
        }
    }

    /// Write the register the 4-bit index selects; a write to index zero is
    /// dropped. Nothing else changes.
    pub fn update_register_value(&mut self, register_index_encoding: u8, value: PrimitiveValue)
        requires
            old(self).wf(),
        ensures
            final(self).wf(),
            final(self).registers@ == reg_file_after_write(
                old(self).registers@,
                register_index_encoding,
                value,
            ),
            final(self).flags == old(self).flags,
            final(self).callstack@ == old(self).callstack@,
            final(self).monotonic_cycle_counter == old(self).monotonic_cycle_counter,
            final(self).pending_exception == old(self).pending_exception,
            final(self).memory_writes@ == old(self).memory_writes@,
    {
        let idx = register_index_encoding % 16;
        if idx != 0 {
            self.registers[(idx - 1) as usize] = value;
        }
    }

    /// Clear all flags, as a block.
    pub fn reset_flags(&mut self)
        ensures
            *final(self) == (VmState { flags: Flags::cleared(), ..*old(self) }),
    {
        self.flags = Flags {
            overflow_or_less_than_flag: false,
            equality_flag: false,
            greater_than_flag: false,
        };
    }

    /// Overwrite the current frame's program counter.
    pub fn set_pc(&mut self, pc: u16)
        requires
            old(self).wf(),
            old(self).callstack@.len() >= 1,
        ensures
            final(self).wf(),
            final(self).callstack@ == frames_with_top_pc(old(self).callstack@, pc),
            final(self).registers@ == old(self).registers@,
            final(self).flags == old(self).flags,
            final(self).monotonic_cycle_counter == old(self).monotonic_cycle_counter,
            final(self).pending_exception == old(self).pending_exception,
            final(self).memory_writes@ == old(self).memory_writes@,
    {
        let top = self.callstack.len() - 1;
        let mut frame = self.callstack[top];
        frame.pc = pc;
        self.callstack[top] = frame;
        proof {
            assert(final(self).callstack@ =~= frames_with_top_pc(old(self).callstack@, pc));
            assert forall|i: int| 0 <= i < self.callstack@.len() implies #[trigger] self.callstack@[i].wf() by {
                assert(old(self).callstack@[i].wf());
            }
        }
    }

    /// The shorthand-panic transition every handler shares: override the
    /// program counter with the reserved panic entry point and set the sticky
    /// exception indicator. A handler calls this and returns immediately;
    /// no other mutation of the triggering instruction is applied.
    pub fn set_shorthand_panic(&mut self)
        requires
            old(self).wf(),
        ensures
            final(self).wf(),
            final(self).callstack@ == frames_with_top_pc(old(self).callstack@, PANIC_ENTRY_PC),
            final(self).pending_exception,
            final(self).registers@ == old(self).registers@,
            final(self).flags == old(self).flags,
            final(self).monotonic_cycle_counter == old(self).monotonic_cycle_counter,
            final(self).memory_writes@ == old(self).memory_writes@,
    {
        self.set_pc(PANIC_ENTRY_PC);
        self.pending_exception = true;
    }

    /// Deliver an opcode's destination value: through the resolved memory
    /// location when there is one (appending to the write log), into the
    /// decoded destination register otherwise.
    pub fn perform_dst0_update(
        &mut self,
        monotonic_cycle_counter: u32,
        value: PrimitiveValue,
        dst0_mem_location: Option<MemoryLocation>,
        opcode: &DecodedOpcode,
    )
        requires
            old(self).wf(),
        ensures
            final(self).wf(),
            match dst0_mem_location {
                Some(location) => {
                    &&& final(self).memory_writes@ == old(self).memory_writes@.push(
                        MemoryWriteQuery { timestamp: monotonic_cycle_counter, location, value },
                    )
                    &&& final(self).registers@ == old(self).registers@
                },
                None => {
                    &&& final(self).registers@ == reg_file_after_write(
                        old(self).registers@,
                        opcode.dst0_reg_idx,
                        value,
                    )
                    &&& final(self).memory_writes@ == old(self).memory_writes@
                },
            },
            final(self).flags == old(self).flags,
            final(self).callstack@ == old(self).callstack@,
            final(self).monotonic_cycle_counter == old(self).monotonic_cycle_counter,
            final(self).pending_exception == old(self).pending_exception,
    {
        match dst0_mem_location {
            Some(location) => {
                self.memory_writes.push(
                    MemoryWriteQuery { timestamp: monotonic_cycle_counter, location, value },
                );
            },
            None => {
                self.update_register_value(opcode.dst0_reg_idx, value);
            },
        }
    }
}

} // verus!
