use axon_vm::catalog::{
    BinopOpcode, JumpOpcode, NopOpcode, Opcode, OpcodeVariant, PtrOpcode, ShiftOpcode,
};
use axon_vm::decode::DecodedOpcode;
use axon_vm::modifiers::{ImmMemHandlerFlags, Operand, RegOrImmFlags};
use axon_vm::state::{CallStackEntry, MemoryLocation, MemoryType, PreState, PrimitiveValue, VmState};
use axon_vm::word::U256;

fn frame() -> CallStackEntry {
    CallStackEntry {
        pc: 0,
        sp: 0,
        base_memory_page: 100,
        code_page: 100,
        ergs_remaining: 1_000_000,
        is_kernel_mode: false,
        is_static: false,
    }
}

fn decoded(opcode: Opcode, set_flags: bool, dst0_reg_idx: u8) -> DecodedOpcode {
    DecodedOpcode {
        variant: OpcodeVariant {
            opcode,
            src0_operand_type: Operand::Full(ImmMemHandlerFlags::UseRegOnly),
            dst0_operand_type: Operand::Full(ImmMemHandlerFlags::UseRegOnly),
            flags: [set_flags],
        },
        src0_reg_idx: 1,
        src1_reg_idx: 2,
        dst0_reg_idx,
        dst1_reg_idx: 0,
        imm_0: 0,
        imm_1: 0,
    }
}

fn prestate(src0: PrimitiveValue, src1: PrimitiveValue) -> PreState {
    PreState { src0, src1, dst0_mem_location: None, new_pc: 17 }
}

fn untagged(low: u128, high: u128) -> PrimitiveValue {
    PrimitiveValue { value: U256 { low, high }, is_pointer: false }
}

fn tagged(low: u128, high: u128) -> PrimitiveValue {
    PrimitiveValue { value: U256 { low, high }, is_pointer: true }
}

#[test]
fn binop_xor_writes_register_and_sets_equality_on_zero() {
    let mut vm = VmState::new(frame());
    let op = decoded(Opcode::Binop(BinopOpcode::Xor), true, 3);
    op.binop_opcode_apply(&mut vm, prestate(untagged(0b1010, 7), untagged(0b1010, 7)));
    assert_eq!(vm.registers[2], untagged(0, 0));
    assert!(vm.flags.equality_flag);
    assert!(!vm.flags.overflow_or_less_than_flag);
    assert_eq!(vm.callstack.last().unwrap().pc, 17);
    assert!(!vm.pending_exception);
}

#[test]
fn binop_ignores_input_tags_and_clears_output_tag() {
    let mut vm = VmState::new(frame());
    let op = decoded(Opcode::Binop(BinopOpcode::Or), false, 4);
    op.binop_opcode_apply(&mut vm, prestate(tagged(0b0011, 0), tagged(0b0101, 0)));
    assert_eq!(vm.registers[3], untagged(0b0111, 0));
    assert!(!vm.flags.equality_flag);
}

#[test]
fn binop_writes_to_memory_location_when_resolved() {
    let mut vm = VmState::new(frame());
    let op = decoded(Opcode::Binop(BinopOpcode::And), false, 3);
    let location = MemoryLocation { memory_type: MemoryType::Stack, page: 101, index: 9 };
    let mut pre = prestate(untagged(0xF0F0, 0), untagged(0xFF00, 0));
    pre.dst0_mem_location = Some(location);
    op.binop_opcode_apply(&mut vm, pre);
    assert_eq!(vm.registers[2], untagged(0, 0));
    assert_eq!(vm.memory_writes.len(), 1);
    assert_eq!(vm.memory_writes[0].location, location);
    assert_eq!(vm.memory_writes[0].value, untagged(0xF000, 0));
}

#[test]
fn shift_takes_amount_from_low_byte() {
    let mut vm = VmState::new(frame());
    let op = decoded(Opcode::Shift(ShiftOpcode::Shl), false, 5);
    // the amount is the low 8 bits only: 0x103 means 3
    op.shift_opcode_apply(&mut vm, prestate(untagged(1, 0), untagged(0x103, 0)));
    assert_eq!(vm.registers[4], untagged(8, 0));
}

#[test]
fn shift_rotations_wrap_across_the_word() {
    let mut vm = VmState::new(frame());
    let ror = decoded(Opcode::Shift(ShiftOpcode::Ror), false, 5);
    ror.shift_opcode_apply(&mut vm, prestate(untagged(1, 0), untagged(1, 0)));
    assert_eq!(vm.registers[4], untagged(0, 1 << 127));
    let rol = decoded(Opcode::Shift(ShiftOpcode::Rol), false, 6);
    rol.shift_opcode_apply(&mut vm, prestate(untagged(0, 1 << 127), untagged(1, 0)));
    assert_eq!(vm.registers[5], untagged(1, 0));
}

#[test]
fn jump_sets_pc_to_low_bits_ignoring_tag_and_high_bits() {
    let mut vm = VmState::new(frame());
    let op = DecodedOpcode {
        variant: OpcodeVariant {
            opcode: Opcode::Jump(JumpOpcode),
            src0_operand_type: Operand::RegOrImm(RegOrImmFlags::UseRegOnly),
            dst0_operand_type: Operand::RegOnly,
            flags: [false],
        },
        src0_reg_idx: 1,
        src1_reg_idx: 0,
        dst0_reg_idx: 0,
        dst1_reg_idx: 0,
        imm_0: 0,
        imm_1: 0,
    };
    let target = PrimitiveValue { value: U256 { low: u128::MAX, high: u128::MAX }, is_pointer: true };
    op.jump_opcode_apply(&mut vm, prestate(target, untagged(0, 0)));
    assert_eq!(vm.callstack.last().unwrap().pc, 0xFFFF);
    assert_eq!(vm.registers[0], untagged(0, 0));
    assert!(!vm.pending_exception);
}

#[test]
fn noop_only_advances_pc() {
    let mut vm = VmState::new(frame());
    let op = decoded(Opcode::Nop(NopOpcode), false, 3);
    op.noop_opcode_apply(&mut vm, prestate(untagged(5, 5), untagged(6, 6)));
    assert_eq!(vm.callstack.last().unwrap().pc, 17);
    assert!(vm.memory_writes.is_empty());
    assert_eq!(vm.registers[2], untagged(0, 0));
}

#[test]
fn ptr_add_moves_offset_and_keeps_high_half() {
    let mut vm = VmState::new(frame());
    let op = decoded(Opcode::Ptr(PtrOpcode::Add), false, 3);
    // offset 10, length 50; page 7, start 3 in the high half
    let pointer = tagged(10 | (50 << 32), 7 | (3 << 32));
    op.ptr_opcode_apply(&mut vm, prestate(pointer, untagged(5, 0)));
    assert_eq!(vm.registers[2], tagged(15 | (50 << 32), 7 | (3 << 32)));
    assert_eq!(vm.callstack.last().unwrap().pc, 17);
}

#[test]
fn ptr_sub_and_shrink_update_their_fields() {
    let mut vm = VmState::new(frame());
    let pointer = tagged(10 | (50 << 32), 7);
    let sub = decoded(Opcode::Ptr(PtrOpcode::Sub), false, 3);
    sub.ptr_opcode_apply(&mut vm, prestate(pointer, untagged(4, 0)));
    assert_eq!(vm.registers[2], tagged(6 | (50 << 32), 7));
    let shrink = decoded(Opcode::Ptr(PtrOpcode::Shrink), false, 4);
    shrink.ptr_opcode_apply(&mut vm, prestate(pointer, untagged(20, 0)));
    assert_eq!(vm.registers[3], tagged(10 | (30 << 32), 7));
}

#[test]
fn ptr_pack_splices_mask_high_half() {
    let mut vm = VmState::new(frame());
    let pointer = tagged(10 | (50 << 32), 7);
    let mask = untagged(0, 0xABCD);
    let pack = decoded(Opcode::Ptr(PtrOpcode::Pack), false, 3);
    pack.ptr_opcode_apply(&mut vm, prestate(pointer, mask));
    assert_eq!(vm.registers[2], tagged(10 | (50 << 32), 0xABCD));
}

#[test]
fn ptr_add_clears_unused_low_bits() {
    let mut vm = VmState::new(frame());
    // stray bits above the length field are dropped by the canonical packing
    let pointer = tagged((10 | (50 << 32)) | (0xDEAD << 64), 7);
    let add = decoded(Opcode::Ptr(PtrOpcode::Add), false, 3);
    add.ptr_opcode_apply(&mut vm, prestate(pointer, untagged(1, 0)));
    assert_eq!(vm.registers[2], tagged(11 | (50 << 32), 7));
}

#[test]
fn ptr_opcode_with_untagged_source_panics_without_mutation() {
    let mut vm = VmState::new(frame());
    vm.update_register_value(5, untagged(123, 0));
    let registers_before = vm.registers.clone();
    for variant in [PtrOpcode::Add, PtrOpcode::Sub, PtrOpcode::Pack, PtrOpcode::Shrink] {
        let op = decoded(Opcode::Ptr(variant), false, 3);
        op.ptr_opcode_apply(&mut vm, prestate(untagged(10, 7), untagged(5, 0)));
        assert_eq!(vm.callstack.last().unwrap().pc, 0xFFFF);
        assert!(vm.pending_exception);
        assert_eq!(vm.registers, registers_before);
        assert!(vm.memory_writes.is_empty());
        vm.pending_exception = false;
    }
}

#[test]
fn ptr_add_panics_on_tagged_second_source_and_large_offset() {
    let mut vm = VmState::new(frame());
    let pointer = tagged(10, 7);
    let add = decoded(Opcode::Ptr(PtrOpcode::Add), false, 3);
    add.ptr_opcode_apply(&mut vm, prestate(pointer, tagged(5, 0)));
    assert!(vm.pending_exception);
    vm.pending_exception = false;
    // an offset argument of 2^32 or more is refused
    add.ptr_opcode_apply(&mut vm, prestate(pointer, untagged(1 << 32, 0)));
    assert!(vm.pending_exception);
    vm.pending_exception = false;
    // 32-bit overflow of the offset field is refused
    let far_pointer = tagged(u32::MAX as u128, 7);
    add.ptr_opcode_apply(&mut vm, prestate(far_pointer, untagged(1, 0)));
    assert!(vm.pending_exception);
}

#[test]
fn add_and_sub_wrap_at_256_bits() {
    let mut vm = VmState::new(frame());
    let add = decoded(Opcode::Add(axon_vm::catalog::AddOpcode), true, 3);
    let all_ones = untagged(u128::MAX, u128::MAX);
    add.add_opcode_apply(&mut vm, prestate(all_ones, untagged(1, 0)));
    assert_eq!(vm.registers[2], untagged(0, 0));
    assert!(vm.flags.overflow_or_less_than_flag);
    assert!(vm.flags.equality_flag);
    assert!(!vm.flags.greater_than_flag);
    let sub = decoded(Opcode::Sub(axon_vm::catalog::SubOpcode), true, 4);
    sub.sub_opcode_apply(&mut vm, prestate(untagged(0, 0), untagged(1, 0)));
    assert_eq!(vm.registers[3], untagged(u128::MAX, u128::MAX));
    assert!(vm.flags.overflow_or_less_than_flag);
    assert!(!vm.flags.equality_flag);
}

#[test]
fn add_carries_between_limbs() {
    let mut vm = VmState::new(frame());
    let add = decoded(Opcode::Add(axon_vm::catalog::AddOpcode), true, 3);
    add.add_opcode_apply(&mut vm, prestate(untagged(u128::MAX, 0), untagged(1, 0)));
    assert_eq!(vm.registers[2], untagged(0, 1));
    assert!(!vm.flags.overflow_or_less_than_flag);
    assert!(vm.flags.greater_than_flag);
}
