//! The dense instruction-decoding table: every legal combination of opcode
//! family, in-family variant, flag bits and operand addressing modes has one
//! index in a table of `2^OPCODES_TABLE_WIDTH` slots, every other slot holds
//! the invalid sentinel.
//!
//! The index layout, low bits first, is
//! `[family (3)] [variant (2)] [set-flags (1)] [src mode (3)] [dst mode (2)]`,
//! eleven bits in all. An instruction word carries this index in its low
//! sixteen bits (bits 11..16 are reserved for predication and ignored here),
//! then four 4-bit register indices, then two 16-bit immediates.

use vstd::arithmetic::div_mod::{
    lemma_div_denominator, lemma_fundamental_div_mod_converse, lemma_small_mod,
};
use vstd::prelude::*;

use crate::catalog::{
    family_can_set_flags, family_dst_catalog, family_src_catalog, family_variant_count,
    opcode_from_codes, ISAVersion, Opcode, OpcodeVariant, OperandCatalog,
};
use crate::modifiers::{ImmMemHandlerFlags, Operand, RegOrImmFlags};

verus! {

/// Number of slots of the decoding table: `2^OPCODES_TABLE_WIDTH`.
pub const OPCODES_TABLE_SIZE: usize = 2048;

/// The addressing mode of the full catalog with encoding byte `c`.
pub open spec fn full_mode_from_code(c: int) -> ImmMemHandlerFlags {
    if c == 0 {
        ImmMemHandlerFlags::UseRegOnly
    } else if c == 1 {
        ImmMemHandlerFlags::UseStackWithPushPop
    } else if c == 2 {
        ImmMemHandlerFlags::UseStackWithOffset
    } else if c == 3 {
        ImmMemHandlerFlags::UseAbsoluteOnStack
    } else if c == 4 {
        ImmMemHandlerFlags::UseImm16Only
    } else {
        ImmMemHandlerFlags::UseCodePage
    }
}

/// The encoding byte of the addressing mode an operand declaration carries;
/// zero for the no-operand form.
pub open spec fn operand_mode_code(o: Operand) -> int {
    match o {
        Operand::RegOnly => 0,
        Operand::RegOrImm(m) => m.variant_index(),
        Operand::Full(m) => m.variant_index(),
    }
}

/// Whether table index `i` is claimed by a legal instruction: its variant
/// index lies within the family's count, a set flag bit belongs to a family
/// that may set flags, and each operand field draws from the catalog the
/// family declares.
pub open spec fn index_is_legal(i: int) -> bool {
    let family = i % 8;
    let variant = (i / 8) % 4;
    let flag = (i / 32) % 2;
    let src = (i / 64) % 8;
    let dst = (i / 512) % 4;
    &&& variant < family_variant_count(family)
    &&& (flag == 1 ==> family_can_set_flags(family))
    &&& match family_src_catalog(family) {
        OperandCatalog::Full => src < 6,
        OperandCatalog::RegOrImm => src == 0 || src == 4,
        OperandCatalog::RegOnly => src == 0,
    }
    &&& match family_dst_catalog(family) {
        OperandCatalog::Full => dst < 4,
        OperandCatalog::RegOrImm => dst == 0,
        OperandCatalog::RegOnly => dst == 0,
    }
}

/// The opcode variant that belongs at table index `i`: the decoded legal
/// instruction, or the invalid sentinel for an unclaimed slot.
pub open spec fn table_entry_spec(i: int) -> OpcodeVariant {
    let family = i % 8;
    let variant = (i / 8) % 4;
    let flag = (i / 32) % 2;
    let src = (i / 64) % 8;
    let dst = (i / 512) % 4;
    if index_is_legal(i) {
        OpcodeVariant {
            opcode: opcode_from_codes(family, variant),
            src0_operand_type: match family_src_catalog(family) {
                OperandCatalog::Full => Operand::Full(full_mode_from_code(src)),
                OperandCatalog::RegOrImm => Operand::RegOrImm(
                    if src == 0 {
                        RegOrImmFlags::UseRegOnly
                    } else {
                        RegOrImmFlags::UseImm16Only
                    },
                ),
                OperandCatalog::RegOnly => Operand::RegOnly,
            },
            dst0_operand_type: match family_dst_catalog(family) {
                OperandCatalog::Full => Operand::Full(full_mode_from_code(dst)),
                OperandCatalog::RegOrImm => Operand::RegOnly,
                OperandCatalog::RegOnly => Operand::RegOnly,
            },
            flags: [flag == 1],
        }
    } else {
        OpcodeVariant::invalid_spec()
    }
}

/// The table index a legal variant encodes to.
pub open spec fn encode_variant_spec(v: OpcodeVariant) -> int {
    v.opcode.family_code() + 8 * v.opcode.in_family_index() + 32 * (if v.set_flags() {
        1int
    } else {
        0int
    }) + 64 * operand_mode_code(v.src0_operand_type) + 512 * operand_mode_code(v.dst0_operand_type)
}

/// Recovering the five bit fields of an index from their packed sum.
proof fn lemma_index_field_recovery(f: int, va: int, fl: int, s: int, d: int)
    requires
        0 <= f < 8,
        0 <= va < 4,
        0 <= fl < 2,
        0 <= s < 8,
        0 <= d < 4,
    ensures
        ({
            let e = f + 8 * va + 32 * fl + 64 * s + 512 * d;
            &&& 0 <= e < 2048
            &&& e % 8 == f
            &&& (e / 8) % 4 == va
            &&& (e / 32) % 2 == fl
            &&& (e / 64) % 8 == s
            &&& (e / 512) % 4 == d
        }),
{
    let e = f + 8 * va + 32 * fl + 64 * s + 512 * d;
    let q1 = va + 4 * fl + 8 * s + 64 * d;
    lemma_fundamental_div_mod_converse(e, 8, q1, f);
    let q2 = fl + 2 * s + 16 * d;
    lemma_fundamental_div_mod_converse(q1, 4, q2, va);
    lemma_div_denominator(e, 8, 4);
    let q3 = s + 8 * d;
    lemma_fundamental_div_mod_converse(q2, 2, q3, fl);
    lemma_div_denominator(e, 32, 2);
    lemma_fundamental_div_mod_converse(q3, 8, d, s);
    lemma_div_denominator(e, 64, 8);
    lemma_small_mod(d as nat, 4);
}

/// A legal variant occupies exactly the slot it encodes to: decoding the
/// encoded index yields the variant back. In particular no two distinct
/// legal variants can claim one index (see [`lemma_no_index_collision`]).
pub proof fn lemma_encode_decode_round_trip(v: OpcodeVariant)
    requires
        v.wf(),
    ensures
        0 <= encode_variant_spec(v) < 2048,
        table_entry_spec(encode_variant_spec(v)) == v,
{
    let f = v.opcode.family_code();
    let va = v.opcode.in_family_index();
    let fl: int = if v.set_flags() {
        1
    } else {
        0
    };
    let s = operand_mode_code(v.src0_operand_type);
    let d = operand_mode_code(v.dst0_operand_type);
    lemma_index_field_recovery(f, va, fl, s, d);
    let e = encode_variant_spec(v);
    assert(e == f + 8 * va + 32 * fl + 64 * s + 512 * d);
    assert(index_is_legal(e));
    let w = table_entry_spec(e);
    assert(opcode_from_codes(f, va) == v.opcode);
    assert(w.src0_operand_type == v.src0_operand_type);
    assert(w.dst0_operand_type == v.dst0_operand_type);
    assert(w.flags =~= v.flags);
    assert(w == v);
}

/// Two distinct legal variants never share a table index.
pub proof fn lemma_no_index_collision(v1: OpcodeVariant, v2: OpcodeVariant)
    requires
        v1.wf(),
        v2.wf(),
        encode_variant_spec(v1) == encode_variant_spec(v2),
    ensures
        v1 == v2,
{
    lemma_encode_decode_round_trip(v1);
    lemma_encode_decode_round_trip(v2);
}

/// Every slot of the table holds a legal variant or the invalid sentinel.
pub proof fn lemma_table_entry_legal_or_invalid(i: int)
    requires
        0 <= i < 2048,
    ensures
        table_entry_spec(i).wf() || table_entry_spec(i) == OpcodeVariant::invalid_spec(),
{
    if index_is_legal(i) {
        let family = i % 8;
        assert(0 <= family < 8);
        assert(table_entry_spec(i).wf());
    }
}

/// The opcode variant that belongs at table index `index`.
pub fn opcode_variant_for_index(index: u16) -> (r: OpcodeVariant)
    requires
        index < 2048,
    ensures
        r == table_entry_spec(index as int),
{
    let i = index;
    let family = i % 8;
    let variant = (i / 8) % 4;
    let flag = (i / 32) % 2;
    let src = (i / 64) % 8;
    let dst = (i / 512) % 4;
    let variant_ok = variant < family_variant_count_exec(family);
    let flag_ok = flag == 0 || family_can_set_flags_exec(family);
    let src_cat = family_src_catalog_exec(family);
    let dst_cat = family_dst_catalog_exec(family);
    let src_ok = match src_cat {
        OperandCatalog::Full => src < 6,
        OperandCatalog::RegOrImm => src == 0 || src == 4,
        OperandCatalog::RegOnly => src == 0,
    };
    let dst_ok = match dst_cat {
        OperandCatalog::Full => dst < 4,
        OperandCatalog::RegOrImm => dst == 0,
        OperandCatalog::RegOnly => dst == 0,
    };
    if variant_ok && flag_ok && src_ok && dst_ok {
        let r = OpcodeVariant {
            opcode: opcode_from_codes_exec(family, variant),
            src0_operand_type: match src_cat {
                OperandCatalog::Full => Operand::Full(full_mode_from_code_exec(src)),
                OperandCatalog::RegOrImm => Operand::RegOrImm(
                    if src == 0 {
                        RegOrImmFlags::UseRegOnly
                    } else {
                        RegOrImmFlags::UseImm16Only
                    },
                ),
                OperandCatalog::RegOnly => Operand::RegOnly,
            },
            dst0_operand_type: match dst_cat {
                OperandCatalog::Full => Operand::Full(full_mode_from_code_exec(dst)),
                OperandCatalog::RegOrImm => Operand::RegOnly,
                OperandCatalog::RegOnly => Operand::RegOnly,
            },
            flags: [flag == 1],
        };
        proof {
            assert(index_is_legal(i as int));
            assert(r.flags =~= table_entry_spec(index as int).flags);
        }
        r
    } else {
        proof {
            assert(!index_is_legal(i as int));
        }
        OpcodeVariant::invalid()
    }
}

/// How many variants the family with code `family` has.
fn family_variant_count_exec(family: u16) -> (r: u16)
    ensures
        r == family_variant_count(family as int),
{
    if family == 4 {
        3
    } else if family == 5 {
        4
    } else if family == 6 {
        4
    } else if family == 7 {
        3
    } else {
        1
    }
}

/// Whether the family with code `family` may set flags.
fn family_can_set_flags_exec(family: u16) -> (r: bool)
    ensures
        r == family_can_set_flags(family as int),
{
    family == 1 || family == 2 || family == 4 || family == 5
}

/// The source catalog of the family with code `family`.
fn family_src_catalog_exec(family: u16) -> (r: OperandCatalog)
    ensures
        r == family_src_catalog(family as int),
{
    if family == 3 {
        OperandCatalog::RegOrImm
    } else if family == 7 {
        OperandCatalog::RegOnly
    } else {
        OperandCatalog::Full
    }
}

/// The destination catalog of the family with code `family`.
fn family_dst_catalog_exec(family: u16) -> (r: OperandCatalog)
    ensures
        r == family_dst_catalog(family as int),
{
    if family == 3 || family == 7 {
        OperandCatalog::RegOnly
    } else {
        OperandCatalog::Full
    }
}

/// The opcode of family `family` with in-family variant index `variant`.
fn opcode_from_codes_exec(family: u16, variant: u16) -> (r: Opcode)
    ensures
        r == opcode_from_codes(family as int, variant as int),
{
    if family == 0 {
        Opcode::Nop(crate::catalog::NopOpcode)
    } else if family == 1 {
        Opcode::Add(crate::catalog::AddOpcode)
    } else if family == 2 {
        Opcode::Sub(crate::catalog::SubOpcode)
    } else if family == 3 {
        Opcode::Jump(crate::catalog::JumpOpcode)
    } else if family == 4 {
        if variant == 0 {
            Opcode::Binop(crate::catalog::BinopOpcode::Xor)
        } else if variant == 1 {
            Opcode::Binop(crate::catalog::BinopOpcode::And)
        } else {
            Opcode::Binop(crate::catalog::BinopOpcode::Or)
        }
    } else if family == 5 {
        if variant == 0 {
            Opcode::Shift(crate::catalog::ShiftOpcode::Shl)
        } else if variant == 1 {
            Opcode::Shift(crate::catalog::ShiftOpcode::Shr)
        } else if variant == 2 {
            Opcode::Shift(crate::catalog::ShiftOpcode::Rol)
        } else {
            Opcode::Shift(crate::catalog::ShiftOpcode::Ror)
        }
    } else if family == 6 {
        if variant == 0 {
            Opcode::Ptr(crate::catalog::PtrOpcode::Add)
        } else if variant == 1 {
            Opcode::Ptr(crate::catalog::PtrOpcode::Sub)
        } else if variant == 2 {
            Opcode::Ptr(crate::catalog::PtrOpcode::Pack)
        } else {
            Opcode::Ptr(crate::catalog::PtrOpcode::Shrink)
        }
    } else {
        if variant == 0 {
            Opcode::Ret(crate::catalog::RetOpcode::Normal)
        } else if variant == 1 {
            Opcode::Ret(crate::catalog::RetOpcode::Revert)
        } else {
            Opcode::Ret(crate::catalog::RetOpcode::Panic)
        }
    }
}

/// The addressing mode of the full catalog with encoding byte `c`.
fn full_mode_from_code_exec(c: u16) -> (r: ImmMemHandlerFlags)
    ensures
        r == full_mode_from_code(c as int),
{
    if c == 0 {
        ImmMemHandlerFlags::UseRegOnly
    } else if c == 1 {
        ImmMemHandlerFlags::UseStackWithPushPop
    } else if c == 2 {
        ImmMemHandlerFlags::UseStackWithOffset
    } else if c == 3 {
        ImmMemHandlerFlags::UseAbsoluteOnStack
    } else if c == 4 {
        ImmMemHandlerFlags::UseImm16Only
    } else {
        ImmMemHandlerFlags::UseCodePage
    }
}

/// Build the dense decoding table for one instruction-set generation: slot
/// `i` holds the variant whose encoding is `i`, every unclaimed slot the
/// invalid sentinel.
pub fn synthesize_opcode_decoding_tables(version: ISAVersion) -> (r: Vec<OpcodeVariant>)
    ensures
        r@.len() == OPCODES_TABLE_SIZE,
        forall|i: int| 0 <= i < OPCODES_TABLE_SIZE ==> #[trigger] r@[i] == table_entry_spec(i),
{
    let _ = version;
    let mut entries: Vec<OpcodeVariant> = Vec::new();
    let mut i: u16 = 0;
    while i < 2048
        invariant
            i <= 2048,
            entries@.len() == i,
            forall|j: int| 0 <= j < i ==> #[trigger] entries@[j] == table_entry_spec(j),
        decreases 2048 - i,
    {
        entries.push(opcode_variant_for_index(i));
        i += 1;
    }
    entries
}

/// The one-time-built, immutable decoding table shared by every interpreter
/// instance.
pub struct DecodingTable {
    pub entries: Vec<OpcodeVariant>,
}

impl DecodingTable {
    /// A well-formed table has exactly `2^OPCODES_TABLE_WIDTH` slots and
    /// slot `i` holds the entry the encoding assigns to `i`.
    pub open spec fn wf(self) -> bool {
        &&& self.entries@.len() == OPCODES_TABLE_SIZE
        &&& forall|i: int|
            0 <= i < OPCODES_TABLE_SIZE ==> #[trigger] self.entries@[i] == table_entry_spec(i)
    }

    /// The entry at slot `i`.
    pub open spec fn entry_at(self, i: int) -> OpcodeVariant {
        self.entries@[i]
    }

    /// Build the table for one instruction-set generation.
    pub fn new(version: ISAVersion) -> (r: DecodingTable)
        ensures
            r.wf(),
    {
        DecodingTable { entries: synthesize_opcode_decoding_tables(version) }
    }

    /// Look a raw 11-bit index up.
    pub fn lookup(&self, index: u16) -> (r: OpcodeVariant)
        requires
            self.wf(),
            index < 2048,
        ensures
            r == table_entry_spec(index as int),
    {
        self.entries[index as usize]
    }
}


/// A fully decoded instruction: the catalog variant plus the register
/// indices and immediates carried in the instruction word.
#[derive(Clone, Copy, Debug, PartialEq, Eq)]
pub struct DecodedOpcode {
    pub variant: OpcodeVariant,
    pub src0_reg_idx: u8,
    pub src1_reg_idx: u8,
    pub dst0_reg_idx: u8,
    pub dst1_reg_idx: u8,
    pub imm_0: u16,
    pub imm_1: u16,
}

impl DecodedOpcode {
    /// Register indices fit the 4-bit register field.
    pub open spec fn wf(self) -> bool {
        &&& self.src0_reg_idx < 16
        &&& self.src1_reg_idx < 16
        &&& self.dst0_reg_idx < 16
        &&& self.dst1_reg_idx < 16
    }
}

impl DecodingTable {
    /// Decode one raw 64-bit instruction word: the low sixteen bits carry the
    /// table index (of which bits 11..16 are reserved and ignored), then four
    /// 4-bit register indices, then the two 16-bit immediates.
    pub fn decode_word(&self, raw: u64) -> (r: DecodedOpcode)
        requires
            self.wf(),
        ensures
            r.variant == table_entry_spec((raw % 2048) as int),
            r.src0_reg_idx == (raw / 0x1_0000) % 16,
            r.src1_reg_idx == (raw / 0x10_0000) % 16,
            r.dst0_reg_idx == (raw / 0x100_0000) % 16,
            r.dst1_reg_idx == (raw / 0x1000_0000) % 16,
            r.imm_0 == (raw / 0x1_0000_0000) % 0x1_0000,
            r.imm_1 == (raw / 0x1_0000_0000_0000) % 0x1_0000,
            r.wf(),
    {
        let index = (raw % 2048) as u16;
        let variant = self.lookup(index);
        DecodedOpcode {
            variant,
            src0_reg_idx: ((raw / 0x1_0000) % 16) as u8,
            src1_reg_idx: ((raw / 0x10_0000) % 16) as u8,
            dst0_reg_idx: ((raw / 0x100_0000) % 16) as u8,
            dst1_reg_idx: ((raw / 0x1000_0000) % 16) as u8,
            imm_0: ((raw / 0x1_0000_0000) % 0x1_0000) as u16,
            imm_1: ((raw / 0x1_0000_0000_0000) % 0x1_0000) as u16,
        }
    }
}


/// Build the per-slot ergs price table alongside the decoding table: slot
/// `i` holds the price of the variant at slot `i`.
pub fn synthesize_opcode_pricing_table(version: ISAVersion) -> (r: Vec<u32>)
    ensures
        r@.len() == OPCODES_TABLE_SIZE,
        forall|i: int|
            0 <= i < OPCODES_TABLE_SIZE ==> #[trigger] r@[i] == table_entry_spec(
                i,
            ).ergs_price_spec(),
{
    let _ = version;
    let mut prices: Vec<u32> = Vec::new();
    let mut i: u16 = 0;
    while i < 2048
        invariant
            i <= 2048,
            prices@.len() == i,
            forall|j: int|
                0 <= j < i ==> #[trigger] prices@[j] == table_entry_spec(j).ergs_price_spec(),
        decreases 2048 - i,
    {
        let entry = opcode_variant_for_index(i);
        prices.push(entry.ergs_price());
        i += 1;
    }
    prices
}

} // verus!
