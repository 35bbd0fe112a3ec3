//! The 256-bit add and sub opcode families: wrapping addition and
//! subtraction over the full word, tag-oblivious like every non-pointer
//! family. When the variant requests flags, the block is reset and reports
//! the carry (or borrow) in the overflow-or-less-than flag, a zero result in
//! the equality flag, and "neither" in the greater-than flag.

use vstd::arithmetic::div_mod::{lemma_fundamental_div_mod_converse, lemma_small_mod};
use vstd::prelude::*;

use crate::catalog::{Opcode, SET_FLAGS_FLAG_IDX};
use crate::decode::DecodedOpcode;
use crate::state::{
    dst0_write_applied, frames_with_top_pc, Flags, PreState, PrimitiveValue, VmState,
};
use crate::word::U256;

verus! {

/// Whether the low limbs carry into the high limbs on addition.
pub open spec fn add_low_carry(a: U256, b: U256) -> bool {
    a.low + b.low >= 0x1_0000_0000_0000_0000_0000_0000_0000_0000int
}

/// The sum of two words, wrapped to 256 bits.
pub open spec fn add_wrapped(a: U256, b: U256) -> U256 {
    U256 {
        low: ((a.low + b.low) % 0x1_0000_0000_0000_0000_0000_0000_0000_0000int) as u128,
        high: ((a.high + b.high + (if add_low_carry(a, b) {
            1int
        } else {
            0int
        })) % 0x1_0000_0000_0000_0000_0000_0000_0000_0000int) as u128,
    }
}

/// Whether the 256-bit addition carries out of the word.
pub open spec fn add_carries(a: U256, b: U256) -> bool {
    a.as_nat() + b.as_nat() >= 0x1_0000_0000_0000_0000_0000_0000_0000_0000int
        * 0x1_0000_0000_0000_0000_0000_0000_0000_0000int
}

/// Whether the low limbs borrow from the high limbs on subtraction.
pub open spec fn sub_low_borrow(a: U256, b: U256) -> bool {
    a.low < b.low
}

/// The difference of two words, wrapped to 256 bits.
pub open spec fn sub_wrapped(a: U256, b: U256) -> U256 {
    U256 {
        low: ((a.low - b.low) % 0x1_0000_0000_0000_0000_0000_0000_0000_0000int) as u128,
        high: ((a.high - b.high - (if sub_low_borrow(a, b) {
            1int
        } else {
            0int
        })) % 0x1_0000_0000_0000_0000_0000_0000_0000_0000int) as u128,
    }
}

/// Whether the 256-bit subtraction borrows beyond the word.
pub open spec fn sub_borrows(a: U256, b: U256) -> bool {
    a.as_nat() < b.as_nat()
}

/// The flags an add or sub leaves when asked to set them: the carry or
/// borrow, a zero result, or "greater": strictly one of the three.
pub open spec fn flags_after_arith(carry_or_borrow: bool, result_is_zero: bool) -> Flags {
    Flags {
        overflow_or_less_than_flag: carry_or_borrow,
        equality_flag: result_is_zero,
        greater_than_flag: !carry_or_borrow && !result_is_zero,
    }
}

/// Add two words, wrapping at 256 bits; also reports the carry out.
pub fn u256_add_with_carry(a: U256, b: U256) -> (r: (U256, bool))
    ensures
        r.0 == add_wrapped(a, b),
        r.1 == add_carries(a, b),
{
    let low = a.low.wrapping_add(b.low);
    let c1 = low < a.low;
    let carry_in: u128 = if c1 {
        1
    } else {
        0
    };
    let high = a.high.wrapping_add(b.high).wrapping_add(carry_in);
    let c2 = high < a.high || (carry_in == 1 && high == a.high);
    proof {
        let m = 0x1_0000_0000_0000_0000_0000_0000_0000_0000int;
        if a.low + b.low > u128::MAX {
            lemma_fundamental_div_mod_converse(a.low + b.low, m, 1, a.low + b.low - m);
        } else {
            lemma_small_mod((a.low + b.low) as nat, m as nat);
        }
        if a.high + b.high + carry_in > u128::MAX {
            lemma_fundamental_div_mod_converse(
                a.high + b.high + carry_in,
                m,
                1,
                a.high + b.high + carry_in - m,
            );
        } else {
            lemma_small_mod((a.high + b.high + carry_in) as nat, m as nat);
        }
    }
    let r = U256 { low, high };
    proof {
        lemma_add_carry_characterisation(a, b);
    }
    (r, c2)
}

/// The carry out of the high limbs is exactly the 256-bit carry.
proof fn lemma_add_carry_characterisation(a: U256, b: U256)
    ensures
        add_carries(a, b) <==> a.high + b.high + (if add_low_carry(a, b) {
            1int
        } else {
            0int
        }) >= 0x1_0000_0000_0000_0000_0000_0000_0000_0000int,
{
    let m: int = 0x1_0000_0000_0000_0000_0000_0000_0000_0000int;
    assert(a.as_nat() + b.as_nat() == (a.low + b.low) + (a.high + b.high) * m);
    if add_low_carry(a, b) {
        assert((a.low + b.low) + (a.high + b.high) * m >= m * m <==> a.high + b.high + 1 >= m)
            by (nonlinear_arith)
            requires
                m <= a.low + b.low < 2 * m,
                0 <= a.high < m,
                0 <= b.high < m,
                m == 0x1_0000_0000_0000_0000_0000_0000_0000_0000int,
        ;
    } else {
        assert((a.low + b.low) + (a.high + b.high) * m >= m * m <==> a.high + b.high >= m)
            by (nonlinear_arith)
            requires
                0 <= a.low + b.low < m,
                0 <= a.high < m,
                0 <= b.high < m,
                m == 0x1_0000_0000_0000_0000_0000_0000_0000_0000int,
        ;
    }
}

/// Subtract two words, wrapping at 256 bits; also reports the borrow out.
pub fn u256_sub_with_borrow(a: U256, b: U256) -> (r: (U256, bool))
    ensures
        r.0 == sub_wrapped(a, b),
        r.1 == sub_borrows(a, b),
{
    let low = a.low.wrapping_sub(b.low);
    let b1 = a.low < b.low;
    let borrow_in: u128 = if b1 {
        1
    } else {
        0
    };
    let high = a.high.wrapping_sub(b.high).wrapping_sub(borrow_in);
    let b2 = a.high < b.high || (borrow_in == 1 && a.high == b.high);
    proof {
        let m = 0x1_0000_0000_0000_0000_0000_0000_0000_0000int;
        if a.low - b.low < 0 {
            lemma_fundamental_div_mod_converse(a.low - b.low, m, -1, a.low - b.low + m);
        } else {
            lemma_small_mod((a.low - b.low) as nat, m as nat);
        }
        if a.high - b.high - borrow_in < 0 {
            lemma_fundamental_div_mod_converse(
                a.high - b.high - borrow_in,
                m,
                -1,
                a.high - b.high - borrow_in + m,
            );
        } else {
            lemma_small_mod((a.high - b.high - borrow_in) as nat, m as nat);
        }
    }
    let r = U256 { low, high };
    proof {
        lemma_sub_borrow_characterisation(a, b);
    }
    (r, b2)
}

/// The borrow out of the high limbs is exactly the 256-bit borrow.
proof fn lemma_sub_borrow_characterisation(a: U256, b: U256)
    ensures
        sub_borrows(a, b) <==> a.high - b.high - (if sub_low_borrow(a, b) {
            1int
        } else {
            0int
        }) < 0,
{
    let m: int = 0x1_0000_0000_0000_0000_0000_0000_0000_0000int;
    assert(a.as_nat() - b.as_nat() == (a.low - b.low) + (a.high - b.high) * m);
    if sub_low_borrow(a, b) {
        assert((a.low - b.low) + (a.high - b.high) * m < 0 <==> a.high - b.high - 1 < 0)
            by (nonlinear_arith)
            requires
                -m < a.low - b.low < 0,
                -m < a.high - b.high < m,
                m == 0x1_0000_0000_0000_0000_0000_0000_0000_0000int,
        ;
    } else {
        assert((a.low - b.low) + (a.high - b.high) * m < 0 <==> a.high - b.high < 0)
            by (nonlinear_arith)
            requires
                0 <= a.low - b.low < m,
                -m < a.high - b.high < m,
                m == 0x1_0000_0000_0000_0000_0000_0000_0000_0000int,
        ;
    }
}

impl DecodedOpcode {
    /// Apply an add: advance the program counter sequentially, add the two
    /// source words wrapping at 256 bits ignoring their tags, update the
    /// flag block when requested, and deliver an untagged result.
    pub fn add_opcode_apply(&self, vm_state: &mut VmState, prestate: PreState)
        requires
            old(vm_state).wf(),
            self.variant.opcode is Add,
        ensures
            final(vm_state).wf(),
            ({
                let result = add_wrapped(prestate.src0.value, prestate.src1.value);
                let out = PrimitiveValue { value: result, is_pointer: false };
                &&& final(vm_state).callstack@ == frames_with_top_pc(
                    old(vm_state).callstack@,
                    prestate.new_pc,
                )
                &&& final(vm_state).flags == (if self.variant.set_flags() {
                    flags_after_arith(
                        add_carries(prestate.src0.value, prestate.src1.value),
                        result.spec_is_zero(),
                    )
                } else {
                    old(vm_state).flags
                })
                &&& dst0_write_applied(
                    *old(vm_state),
                    *final(vm_state),
                    out,
                    prestate.dst0_mem_location,
                    self.dst0_reg_idx,
                )
                &&& final(vm_state).monotonic_cycle_counter == old(
                    vm_state,
                ).monotonic_cycle_counter
                &&& final(vm_state).pending_exception == old(vm_state).pending_exception
            }),
    {
        let set_flags = self.variant.flags[SET_FLAGS_FLAG_IDX];
        vm_state.set_pc(prestate.new_pc);
        let (result, carry) = u256_add_with_carry(prestate.src0.value, prestate.src1.value);
        if set_flags {
            let eq = result.is_zero();
            vm_state.reset_flags();
            vm_state.flags.overflow_or_less_than_flag = carry;
            vm_state.flags.equality_flag = eq;
            vm_state.flags.greater_than_flag = !carry && !eq;
        }
        let out = PrimitiveValue { value: result, is_pointer: false };
        let cycle = vm_state.monotonic_cycle_counter;
        vm_state.perform_dst0_update(cycle, out, prestate.dst0_mem_location, self);
    }

    /// Apply a sub: like add, with the borrow reported in place of the carry.
    pub fn sub_opcode_apply(&self, vm_state: &mut VmState, prestate: PreState)
        requires
            old(vm_state).wf(),
            self.variant.opcode is Sub,
        ensures
            final(vm_state).wf(),
            ({
                let result = sub_wrapped(prestate.src0.value, prestate.src1.value);
                let out = PrimitiveValue { value: result, is_pointer: false };
                &&& final(vm_state).callstack@ == frames_with_top_pc(
                    old(vm_state).callstack@,
                    prestate.new_pc,
                )
                &&& final(vm_state).flags == (if self.variant.set_flags() {
                    flags_after_arith(
                        sub_borrows(prestate.src0.value, prestate.src1.value),
                        result.spec_is_zero(),
                    )
                } else {
                    old(vm_state).flags
                })
                &&& dst0_write_applied(
                    *old(vm_state),
                    *final(vm_state),
                    out,
                    prestate.dst0_mem_location,
                    self.dst0_reg_idx,
                )
                &&& final(vm_state).monotonic_cycle_counter == old(
                    vm_state,
                ).monotonic_cycle_counter
                &&& final(vm_state).pending_exception == old(vm_state).pending_exception
            }),
    {
        let set_flags = self.variant.flags[SET_FLAGS_FLAG_IDX];
        vm_state.set_pc(prestate.new_pc);
        let (result, borrow) = u256_sub_with_borrow(prestate.src0.value, prestate.src1.value);
        if set_flags {
            let eq = result.is_zero();
            vm_state.reset_flags();
            vm_state.flags.overflow_or_less_than_flag = borrow;
            vm_state.flags.equality_flag = eq;
            vm_state.flags.greater_than_flag = !borrow && !eq;
        }
        let out = PrimitiveValue { value: result, is_pointer: false };
        let cycle = vm_state.monotonic_cycle_counter;
        vm_state.perform_dst0_update(cycle, out, prestate.dst0_mem_location, self);
    }
}

} // verus!
