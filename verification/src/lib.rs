//! Core of a deterministic fixed-width bytecode interpreter: the dense
//! instruction-decoding table, the tagged-value / fat-pointer model, the
//! operand resolver, the per-cycle opcode handlers and the tracer hooks.
//!
//! Every 256-bit register or memory cell is a [`word::U256`] together with a
//! pointer tag; instruction words decode through the catalog in [`decode`];
//! resolved operands flow into the handlers in `binop`, `shift_ops`, `ptr_ops`,
//! `jump`, `noop` and `arith`, which mutate a [`state::VmState`].

use vstd::prelude::*;

pub mod word;
pub mod modifiers;
pub mod catalog;
pub mod decode;
pub mod state;
pub mod pointer;
pub mod binop;
pub mod shift_ops;
pub mod jump;
pub mod noop;
pub mod ptr_ops;
pub mod arith;
pub mod mem_ops;
pub mod tracer;
pub mod meta;
pub mod utils;

verus! {

/// Number of general-purpose registers in the register file.
pub const REGISTERS_COUNT: usize = 15;

/// Width in bits of the dense instruction-decoding table index.
pub const OPCODES_TABLE_WIDTH: usize = 11;

/// Bits reserved for a register index inside an instruction word.
pub const REGISTER_INDEX_ENCODING_BITS: usize = 4;

/// Bit position of the two source register indices inside an instruction word.
pub const SRC_REGS_SHIFT: u32 = 16;

/// Bit position of the two destination register indices inside an instruction word.
pub const DST_REGS_SHIFT: u32 = 24;

/// Bits of an instruction word that hold the variant-and-condition part.
pub const VARIANT_AND_CONDITION_ENCODING_BITS: usize = 16;

} // verus!

