use axon_vm::mem_ops::MemOpsProcessor;
use axon_vm::meta::VmMetaParameters;
use axon_vm::modifiers::{ImmMemHandlerFlags, Operand, RegOrImmFlags};
use axon_vm::state::{CallStackEntry, MemoryType, PrimitiveValue, VmState};
use axon_vm::utils::{
    address_to_u256, contract_bytecode_to_words, low_u128_of_u256, low_u32_of_u256,
    low_u64_of_u256, u256_to_address_unchecked, Address,
};
use axon_vm::word::U256;

fn vm_with_r1(low: u128) -> VmState {
    let mut vm = VmState::new(CallStackEntry {
        pc: 0,
        sp: 0,
        base_memory_page: 100,
        code_page: 44,
        ergs_remaining: 1_000_000,
        is_kernel_mode: false,
        is_static: false,
    });
    vm.update_register_value(
        1,
        PrimitiveValue { value: U256 { low, high: 0 }, is_pointer: false },
    );
    vm
}

#[test]
fn register_and_immediate_modes_touch_no_memory() {
    let vm = vm_with_r1(9);
    let mut resolver = MemOpsProcessor { sp: 40 };
    for mode in [
        Operand::RegOnly,
        Operand::RegOrImm(RegOrImmFlags::UseRegOnly),
        Operand::Full(ImmMemHandlerFlags::UseRegOnly),
    ] {
        let (value, location) = resolver.compute_addresses_and_select_operands(&vm, 1, 3, mode, false);
        assert_eq!(value.value.low, 9);
        assert!(location.is_none());
        assert_eq!(resolver.sp, 40);
    }
}

#[test]
fn push_then_pop_restores_stack_pointer() {
    let vm = vm_with_r1(9);
    let mut resolver = MemOpsProcessor { sp: 40 };
    let mode = Operand::Full(ImmMemHandlerFlags::UseStackWithPushPop);
    // push: the location uses the pre-increment pointer
    let (_, push_loc) = resolver.compute_addresses_and_select_operands(&vm, 1, 3, mode, true);
    let push_loc = push_loc.unwrap();
    assert_eq!(push_loc.memory_type, MemoryType::Stack);
    assert_eq!(push_loc.page, 101);
    assert_eq!(push_loc.index, 40);
    assert_eq!(resolver.sp, 52);
    // pop with the same displacement: the pointer comes back
    let (_, pop_loc) = resolver.compute_addresses_and_select_operands(&vm, 1, 3, mode, false);
    let pop_loc = pop_loc.unwrap();
    assert_eq!(pop_loc.index, 40);
    assert_eq!(resolver.sp, 40);
}

#[test]
fn push_pop_round_trip_wraps_at_16_bits() {
    let vm = vm_with_r1(0xFFFF);
    let mut resolver = MemOpsProcessor { sp: 5 };
    let mode = Operand::Full(ImmMemHandlerFlags::UseStackWithPushPop);
    resolver.compute_addresses_and_select_operands(&vm, 1, 10, mode, true);
    assert_eq!(resolver.sp, 14);
    resolver.compute_addresses_and_select_operands(&vm, 1, 10, mode, false);
    assert_eq!(resolver.sp, 5);
}

#[test]
fn stack_offset_mode_reads_below_sp_without_moving_it() {
    let vm = vm_with_r1(2);
    let mut resolver = MemOpsProcessor { sp: 50 };
    let (_, location) = resolver.compute_addresses_and_select_operands(
        &vm,
        1,
        3,
        Operand::Full(ImmMemHandlerFlags::UseStackWithOffset),
        false,
    );
    assert_eq!(location.unwrap().index, 45);
    assert_eq!(resolver.sp, 50);
}

#[test]
fn absolute_stack_mode_uses_the_virtual_address_verbatim() {
    let vm = vm_with_r1(30);
    let mut resolver = MemOpsProcessor { sp: 50 };
    let (_, location) = resolver.compute_addresses_and_select_operands(
        &vm,
        1,
        12,
        Operand::Full(ImmMemHandlerFlags::UseAbsoluteOnStack),
        true,
    );
    assert_eq!(location.unwrap().index, 42);
    assert_eq!(resolver.sp, 50);
}

#[test]
fn code_page_mode_reads_the_current_frame_code_page() {
    let vm = vm_with_r1(7);
    let mut resolver = MemOpsProcessor { sp: 0 };
    let (_, location) = resolver.compute_addresses_and_select_operands(
        &vm,
        1,
        1,
        Operand::Full(ImmMemHandlerFlags::UseCodePage),
        false,
    );
    let location = location.unwrap();
    assert_eq!(location.memory_type, MemoryType::Code);
    assert_eq!(location.page, 44);
    assert_eq!(location.index, 8);
}

#[test]
fn register_index_zero_reads_as_empty() {
    let vm = vm_with_r1(9);
    let mut resolver = MemOpsProcessor { sp: 0 };
    let (value, _) =
        resolver.compute_addresses_and_select_operands(&vm, 0, 0, Operand::RegOnly, false);
    assert_eq!(value, PrimitiveValue { value: U256 { low: 0, high: 0 }, is_pointer: false });
}

#[test]
fn meta_parameters_pack_exactly() {
    let meta = VmMetaParameters {
        ergs_per_pubdata_byte: 17,
        heap_size: 0x1000,
        aux_heap_size: 0x2000,
        this_shard_id: 1,
        caller_shard_id: 2,
        code_shard_id: 3,
    };
    let word = meta.to_u256();
    assert_eq!(word.low, 17 | (0x1000u128 << 64) | (0x2000u128 << 96));
    assert_eq!(word.high, (1u128 << 96) | (2u128 << 104) | (3u128 << 112));
}

#[test]
fn bytecode_words_read_big_endian() {
    let mut word = [0u8; 32];
    word[0] = 0xAB;
    word[31] = 0x01;
    word[16] = 0xCD;
    let words = contract_bytecode_to_words(&vec![word]);
    assert_eq!(words.len(), 1);
    assert_eq!(words[0].high, 0xAB << 120);
    assert_eq!(words[0].low, (0xCD << 120) | 0x01);
}

#[test]
fn address_round_trip() {
    let mut bytes = [0u8; 20];
    bytes[0] = 0xDE;
    bytes[3] = 0xAD;
    bytes[4] = 0xBE;
    bytes[19] = 0xEF;
    let address = Address { bytes };
    let word = address_to_u256(&address);
    assert_eq!(word.high, 0xDE00_00ADu128);
    assert_eq!(word.low, (0xBEu128 << 120) | 0xEF);
    let back = u256_to_address_unchecked(&word);
    assert_eq!(back.bytes, bytes);
}

#[test]
fn address_unpacking_ignores_high_bits() {
    let word = U256 { low: 5, high: (0xFFu128 << 40) | 0x12 };
    let address = u256_to_address_unchecked(&word);
    // only the low 32 bits of the high limb fit the address
    assert_eq!(address.bytes[0], 0);
    assert_eq!(address.bytes[3], 0x12);
    assert_eq!(address.bytes[19], 5);
}

#[test]
fn low_limb_accessors_truncate() {
    let v = U256 { low: 0x1111_2222_3333_4444_5555_6666_7777_8888, high: 9 };
    assert_eq!(low_u128_of_u256(&v), v.low);
    assert_eq!(low_u64_of_u256(&v), 0x5555_6666_7777_8888);
    assert_eq!(low_u32_of_u256(&v), 0x7777_8888);
}
