use axon_vm::catalog::{
    default_isa_version, BinopOpcode, InvalidOpcode, NopOpcode, Opcode, OpcodeVariant, RetOpcode,
};
use axon_vm::decode::{synthesize_opcode_decoding_tables, synthesize_opcode_pricing_table, DecodingTable};
use axon_vm::modifiers::{ImmMemHandlerFlags, Operand, RegOrImmFlags};

fn sentinel() -> OpcodeVariant {
    OpcodeVariant {
        opcode: Opcode::Invalid(InvalidOpcode),
        src0_operand_type: Operand::RegOnly,
        dst0_operand_type: Operand::RegOnly,
        flags: [false],
    }
}

#[test]
fn table_has_full_size_and_only_legal_or_sentinel_entries() {
    let table = synthesize_opcode_decoding_tables(default_isa_version());
    assert_eq!(table.len(), 1 << 11);
    let mut legal = 0usize;
    for entry in &table {
        if *entry == sentinel() {
            continue;
        }
        legal += 1;
        // a legal entry never carries the invalid marker, and its
        // destination mode is legal as a destination
        assert!(!matches!(entry.opcode, Opcode::Invalid(_)));
        match entry.dst0_operand_type {
            Operand::Full(mode) => assert!(mode.is_allowed_for_dst()),
            Operand::RegOrImm(mode) => assert!(mode.is_allowed_for_dst()),
            Operand::RegOnly => {}
        }
    }
    // re-enumeration: families x variants x flags x sources x destinations
    let full_dst_families = 24 + 48 + 48 + 144 + 192 + 96;
    let reg_dst_families = 2 + 3;
    assert_eq!(legal, full_dst_families + reg_dst_families);
}

#[test]
fn no_two_distinct_legal_variants_share_an_index() {
    let table = synthesize_opcode_decoding_tables(default_isa_version());
    // every legal entry occupies exactly one slot
    for (index, entry) in table.iter().enumerate() {
        if *entry == sentinel() {
            continue;
        }
        for (other_index, other) in table.iter().enumerate() {
            if other_index != index && *other == *entry {
                panic!("two slots share one legal variant");
            }
        }
    }
}

#[test]
fn nop_and_panic_variants_are_in_the_table() {
    let table = synthesize_opcode_decoding_tables(default_isa_version());
    let nop = OpcodeVariant {
        opcode: Opcode::Nop(NopOpcode),
        src0_operand_type: Operand::Full(ImmMemHandlerFlags::UseRegOnly),
        dst0_operand_type: Operand::Full(ImmMemHandlerFlags::UseRegOnly),
        flags: [false],
    };
    let panic_variant = OpcodeVariant {
        opcode: Opcode::Ret(RetOpcode::Panic),
        src0_operand_type: Operand::RegOnly,
        dst0_operand_type: Operand::RegOnly,
        flags: [false],
    };
    assert!(table.contains(&nop));
    assert!(table.contains(&panic_variant));
    // nop is family 0 with all fields zero: slot 0
    assert_eq!(table[0], nop);
    // ret-panic is family 7, variant 2: slot 7 + 8*2
    assert_eq!(table[7 + 8 * 2], panic_variant);
}

#[test]
fn decode_word_splits_the_instruction_fields() {
    let table = DecodingTable::new(default_isa_version());
    // binop-and (family 4, variant 1), set-flags, src mode 2, dst mode 3
    let index: u64 = 4 | (1 << 3) | (1 << 5) | (2 << 6) | (3 << 9);
    let raw: u64 = index
        | (3 << 16)
        | (7 << 20)
        | (11 << 24)
        | (2 << 28)
        | (0xBEEF << 32)
        | (0x1234 << 48);
    let decoded = table.decode_word(raw);
    assert_eq!(decoded.variant.opcode, Opcode::Binop(BinopOpcode::And));
    assert_eq!(
        decoded.variant.src0_operand_type,
        Operand::Full(ImmMemHandlerFlags::UseStackWithOffset)
    );
    assert_eq!(
        decoded.variant.dst0_operand_type,
        Operand::Full(ImmMemHandlerFlags::UseAbsoluteOnStack)
    );
    assert!(decoded.variant.flags[0]);
    assert_eq!(decoded.src0_reg_idx, 3);
    assert_eq!(decoded.src1_reg_idx, 7);
    assert_eq!(decoded.dst0_reg_idx, 11);
    assert_eq!(decoded.dst1_reg_idx, 2);
    assert_eq!(decoded.imm_0, 0xBEEF);
    assert_eq!(decoded.imm_1, 0x1234);
}

#[test]
fn jump_uses_the_reduced_catalog() {
    let table = DecodingTable::new(default_isa_version());
    // jump (family 3), register source
    let reg_jump = table.decode_word(3);
    assert_eq!(reg_jump.variant.opcode, Opcode::Jump(axon_vm::catalog::JumpOpcode));
    assert_eq!(
        reg_jump.variant.src0_operand_type,
        Operand::RegOrImm(RegOrImmFlags::UseRegOnly)
    );
    // jump with the immediate source: source field holds the shared
    // immediate encoding byte 4
    let imm_jump = table.decode_word(3 | (4 << 6));
    assert_eq!(
        imm_jump.variant.src0_operand_type,
        Operand::RegOrImm(RegOrImmFlags::UseImm16Only)
    );
    // source byte 2 is not in the reduced catalog: the slot is the sentinel
    let bad_jump = table.decode_word(3 | (2 << 6));
    assert_eq!(bad_jump.variant, sentinel());
}

#[test]
fn pricing_table_charges_memory_operands_more() {
    let prices = synthesize_opcode_pricing_table(default_isa_version());
    assert_eq!(prices.len(), 1 << 11);
    // nop with register source and destination: the average price
    assert_eq!(prices[0], 5);
    // nop with a stack-offset source: rich addressing
    assert_eq!(prices[0 | (2 << 6)], 6);
    // an unclaimed slot burns everything: jump may not set flags
    assert_eq!(prices[3 | (1 << 5)], u32::MAX);
}
