use axon_vm::catalog::{default_isa_version, Opcode};
use axon_vm::decode::{DecodedOpcode, DecodingTable};
use axon_vm::mem_ops::MemOpsProcessor;
use axon_vm::modifiers::{ImmMemHandlerFlags, Operand, RegOrImmFlags};
use axon_vm::state::{CallStackEntry, PreState, PrimitiveValue, VmState};
use axon_vm::tracer::{GenericNoopTracer, Tracer};
use axon_vm::word::U256;

fn fresh_vm() -> VmState {
    VmState::new(CallStackEntry {
        pc: 0,
        sp: 0,
        base_memory_page: 100,
        code_page: 100,
        ergs_remaining: 1_000_000,
        is_kernel_mode: false,
        is_static: false,
    })
}

/// One interpreter cycle over register-or-immediate operands, with the four
/// tracer hooks fired in their fixed order.
fn run_cycle<T: Tracer>(vm: &mut VmState, table: &DecodingTable, raw: u64, tracer: &mut T) {
    tracer.before_decoding(vm);
    let decoded: DecodedOpcode = table.decode_word(raw);
    tracer.after_decoding(vm, &decoded);
    let mut resolver = MemOpsProcessor { sp: vm.callstack.last().unwrap().sp };
    let (src0_reg, _) = resolver.compute_addresses_and_select_operands(
        vm,
        decoded.src0_reg_idx,
        decoded.imm_0,
        decoded.variant.src0_operand_type,
        false,
    );
    // an immediate-mode source takes the immediate instead of the register
    let src0 = match decoded.variant.src0_operand_type {
        Operand::RegOrImm(RegOrImmFlags::UseImm16Only)
        | Operand::Full(ImmMemHandlerFlags::UseImm16Only) => PrimitiveValue {
            value: U256 { low: decoded.imm_0 as u128, high: 0 },
            is_pointer: false,
        },
        _ => src0_reg,
    };
    let (src1, _) = resolver.compute_addresses_and_select_operands(
        vm,
        decoded.src1_reg_idx,
        0,
        Operand::RegOnly,
        false,
    );
    let (_, dst0_mem_location) = resolver.compute_addresses_and_select_operands(
        vm,
        decoded.dst0_reg_idx,
        decoded.imm_1,
        decoded.variant.dst0_operand_type,
        true,
    );
    let top = vm.callstack.len() - 1;
    vm.callstack[top].sp = resolver.sp;
    let new_pc = vm.callstack.last().unwrap().pc.wrapping_add(1);
    let prestate = PreState { src0, src1, dst0_mem_location, new_pc };
    tracer.before_execution(vm, &prestate);
    match decoded.variant.opcode {
        Opcode::Add(_) => decoded.add_opcode_apply(vm, prestate),
        Opcode::Sub(_) => decoded.sub_opcode_apply(vm, prestate),
        Opcode::Binop(_) => decoded.binop_opcode_apply(vm, prestate),
        Opcode::Shift(_) => decoded.shift_opcode_apply(vm, prestate),
        Opcode::Ptr(_) => decoded.ptr_opcode_apply(vm, prestate),
        Opcode::Jump(_) => decoded.jump_opcode_apply(vm, prestate),
        _ => decoded.noop_opcode_apply(vm, prestate),
    }
    vm.monotonic_cycle_counter = vm.monotonic_cycle_counter.wrapping_add(1);
    tracer.after_execution(vm);
}

fn untagged(low: u128) -> PrimitiveValue {
    PrimitiveValue { value: U256 { low, high: 0 }, is_pointer: false }
}

#[test]
fn two_adds_then_a_jump_produce_the_expected_state() {
    let table = DecodingTable::new(default_isa_version());
    let mut vm = fresh_vm();
    let mut tracer = GenericNoopTracer::new();
    vm.update_register_value(1, untagged(5));
    vm.update_register_value(2, untagged(7));
    // add r1, r2 -> r3 (family 1, register source and destination)
    let add_1_2_3: u64 = 1 | (1 << 16) | (2 << 20) | (3 << 24);
    // add r3, r3 -> r4
    let add_3_3_4: u64 = 1 | (3 << 16) | (3 << 20) | (4 << 24);
    // jump to the fixed literal 0x1234 (family 3, immediate source)
    let jump_imm: u64 = (3 | (4 << 6)) | (0x1234 << 32);
    run_cycle(&mut vm, &table, add_1_2_3, &mut tracer);
    assert_eq!(vm.registers[2], untagged(12));
    assert_eq!(vm.callstack.last().unwrap().pc, 1);
    run_cycle(&mut vm, &table, add_3_3_4, &mut tracer);
    assert_eq!(vm.registers[3], untagged(24));
    assert_eq!(vm.callstack.last().unwrap().pc, 2);
    run_cycle(&mut vm, &table, jump_imm, &mut tracer);
    assert_eq!(vm.callstack.last().unwrap().pc, 0x1234);
    assert_eq!(vm.registers[0], untagged(5));
    assert_eq!(vm.registers[1], untagged(7));
    assert_eq!(vm.registers[2], untagged(12));
    assert_eq!(vm.registers[3], untagged(24));
    assert_eq!(vm.monotonic_cycle_counter, 3);
    assert!(!vm.pending_exception);
}

#[test]
fn pointer_add_with_out_of_range_offset_panics_in_place() {
    let table = DecodingTable::new(default_isa_version());
    let mut vm = fresh_vm();
    let mut tracer = GenericNoopTracer::new();
    vm.update_register_value(
        1,
        PrimitiveValue { value: U256 { low: 10 | (50 << 32), high: 7 }, is_pointer: true },
    );
    vm.update_register_value(2, untagged(1 << 32));
    let registers_before = vm.registers.clone();
    // ptr-add r1, r2 -> r3 (family 6, variant 0)
    let ptr_add: u64 = 6 | (1 << 16) | (2 << 20) | (3 << 24);
    run_cycle(&mut vm, &table, ptr_add, &mut tracer);
    assert_eq!(vm.callstack.last().unwrap().pc, 0xFFFF);
    assert!(vm.pending_exception);
    assert_eq!(vm.registers, registers_before);
    assert!(vm.memory_writes.is_empty());
}
