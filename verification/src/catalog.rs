//! The opcode catalog: the closed set of opcode families and their variants,
//! the properties each family declares (allowed addressing catalogs, settable
//! flags), the [`OpcodeVariant`] record the decoder produces, and the bit
//! budget of the flattened opcode description.

use vstd::prelude::*;

use crate::modifiers::{ImmMemHandlerFlags, Operand, RegOrImmFlags};

verus! {

/// Number of opcode families that can appear in an instruction encoding.
pub const NUM_OPCODES: usize = 8;

/// Number of non-exclusive flag bits an opcode variant carries.
pub const NUM_NON_EXCLUSIVE_FLAGS: usize = 1;

/// Index of the "set flags" bit in an [`OpcodeVariant`]'s flag array.
pub const SET_FLAGS_FLAG_IDX: usize = 0;

/// One-hot property bits for the six source addressing modes in the
/// flattened opcode description.
pub const OPCODE_INPUT_VARIANT_FLAGS: usize = 6;

/// One-hot property bits for the four destination addressing modes in the
/// flattened opcode description.
pub const OPCODE_OUTPUT_VARIANT_FLAGS: usize = 4;

/// Auxiliary description bit: opcode requires kernel mode.
pub const KERNEL_MODE_FLAG_BITS: usize = 1;

/// Auxiliary description bit: opcode is usable in a static context.
pub const CAN_BE_USED_IN_STATIC_CONTEXT_FLAG_BITS: usize = 1;

/// Auxiliary description bit: opcode is an explicit panic.
pub const EXPLICIT_PANIC_FLAG_BITS: usize = 1;

/// Total auxiliary description bits appended after rounding.
pub const TOTAL_AUX_BITS: usize = KERNEL_MODE_FLAG_BITS + CAN_BE_USED_IN_STATIC_CONTEXT_FLAG_BITS
    + EXPLICIT_PANIC_FLAG_BITS;

/// The flattened description is rounded up to a multiple of this width.
pub const WIDTH_MULTIPLE: usize = 16;

/// Version tag of an instruction-set generation, so that future revisions of
/// the catalog can coexist with this one.
#[derive(Clone, Copy, Debug, PartialEq, Eq, Structural)]
pub struct ISAVersion(pub u8);

/// The instruction-set generation this catalog describes. There is a single
/// generation so far; every catalog query answers for it whatever version tag
/// it is handed.
pub fn default_isa_version() -> (r: ISAVersion)
    ensures
        r == ISAVersion(0),
{
    ISAVersion(0)
}

/// Marker for the slots of the decoding table that no legal instruction
/// claims.
#[derive(Clone, Copy, Debug, PartialEq, Eq, Structural)]
pub struct InvalidOpcode;

/// The no-operation opcode.
#[derive(Clone, Copy, Debug, PartialEq, Eq, Structural)]
pub struct NopOpcode;

/// The 256-bit wrapping addition opcode.
#[derive(Clone, Copy, Debug, PartialEq, Eq, Structural)]
pub struct AddOpcode;

/// The 256-bit wrapping subtraction opcode.
#[derive(Clone, Copy, Debug, PartialEq, Eq, Structural)]
pub struct SubOpcode;

/// The unconditional jump opcode.
#[derive(Clone, Copy, Debug, PartialEq, Eq, Structural)]
pub struct JumpOpcode;

/// The bitwise opcode family's variants.
#[derive(Clone, Copy, Debug, PartialEq, Eq, Structural)]
pub enum BinopOpcode {
    Xor,
    And,
    Or,
}

/// The shift opcode family's variants: plain shifts and cyclic rotations.
#[derive(Clone, Copy, Debug, PartialEq, Eq, Structural)]
pub enum ShiftOpcode {
    Shl,
    Shr,
    Rol,
    Ror,
}

/// The fat-pointer opcode family's variants.
#[derive(Clone, Copy, Debug, PartialEq, Eq, Structural)]
pub enum PtrOpcode {
    Add,
    Sub,
    Pack,
    Shrink,
}

/// The return opcode family's variants: normal return, revert, and the
/// explicit panic.
#[derive(Clone, Copy, Debug, PartialEq, Eq, Structural)]
pub enum RetOpcode {
    Normal,
    Revert,
    Panic,
}

/// An opcode: family plus variant within the family.
#[derive(Clone, Copy, Debug, PartialEq, Eq, Structural)]
pub enum Opcode {
    Invalid(InvalidOpcode),
    Nop(NopOpcode),
    Add(AddOpcode),
    Sub(SubOpcode),
    Jump(JumpOpcode),
    Binop(BinopOpcode),
    Shift(ShiftOpcode),
    Ptr(PtrOpcode),
    Ret(RetOpcode),
}

/// Which addressing catalog an opcode family declares for an operand.
#[derive(Clone, Copy, Debug, PartialEq, Eq, Structural)]
pub enum OperandCatalog {
    /// No real operand: only the plain register form is legal.
    RegOnly,
    /// The reduced register-or-immediate catalog.
    RegOrImm,
    /// The full catalog including stack and code-page modes.
    Full,
}

impl Opcode {
    /// The family code of this opcode in the instruction encoding, `0..8`;
    /// the invalid marker has no encoding and is mapped outside the range.
    pub open spec fn family_code(self) -> int {
        match self {
            Opcode::Invalid(_) => -1,
            Opcode::Nop(_) => 0,
            Opcode::Add(_) => 1,
            Opcode::Sub(_) => 2,
            Opcode::Jump(_) => 3,
            Opcode::Binop(_) => 4,
            Opcode::Shift(_) => 5,
            Opcode::Ptr(_) => 6,
            Opcode::Ret(_) => 7,
        }
    }

    /// The index of this opcode's variant within its family, `0..4`.
    pub open spec fn in_family_index(self) -> int {
        match self {
            Opcode::Invalid(_) => 0,
            Opcode::Nop(_) => 0,
            Opcode::Add(_) => 0,
            Opcode::Sub(_) => 0,
            Opcode::Jump(_) => 0,
            Opcode::Binop(BinopOpcode::Xor) => 0,
            Opcode::Binop(BinopOpcode::And) => 1,
            Opcode::Binop(BinopOpcode::Or) => 2,
            Opcode::Shift(ShiftOpcode::Shl) => 0,
            Opcode::Shift(ShiftOpcode::Shr) => 1,
            Opcode::Shift(ShiftOpcode::Rol) => 2,
            Opcode::Shift(ShiftOpcode::Ror) => 3,
            Opcode::Ptr(PtrOpcode::Add) => 0,
            Opcode::Ptr(PtrOpcode::Sub) => 1,
            Opcode::Ptr(PtrOpcode::Pack) => 2,
            Opcode::Ptr(PtrOpcode::Shrink) => 3,
            Opcode::Ret(RetOpcode::Normal) => 0,
            Opcode::Ret(RetOpcode::Revert) => 1,
            Opcode::Ret(RetOpcode::Panic) => 2,
        }
    }
}

/// How many variants the family with code `family` has.
pub open spec fn family_variant_count(family: int) -> int {
    if family == 4 {
        3
    } else if family == 5 {
        4
    } else if family == 6 {
        4
    } else if family == 7 {
        3
    } else {
        1
    }
}

/// Whether the family with code `family` may request the flag update
/// ("set flags") behaviour.
pub open spec fn family_can_set_flags(family: int) -> bool {
    family == 1 || family == 2 || family == 4 || family == 5
}

/// The addressing catalog the family with code `family` declares for its
/// first source operand.
pub open spec fn family_src_catalog(family: int) -> OperandCatalog {
    if family == 3 {
        OperandCatalog::RegOrImm
    } else if family == 7 {
        OperandCatalog::RegOnly
    } else {
        OperandCatalog::Full
    }
}

/// The addressing catalog the family with code `family` declares for its
/// first destination operand.
pub open spec fn family_dst_catalog(family: int) -> OperandCatalog {
    if family == 3 || family == 7 {
        OperandCatalog::RegOnly
    } else {
        OperandCatalog::Full
    }
}

/// The opcode of family `family` with in-family variant index `variant`.
pub open spec fn opcode_from_codes(family: int, variant: int) -> Opcode {
    if family == 0 {
        Opcode::Nop(NopOpcode)
    } else if family == 1 {
        Opcode::Add(AddOpcode)
    } else if family == 2 {
        Opcode::Sub(SubOpcode)
    } else if family == 3 {
        Opcode::Jump(JumpOpcode)
    } else if family == 4 {
        if variant == 0 {
            Opcode::Binop(BinopOpcode::Xor)
        } else if variant == 1 {
            Opcode::Binop(BinopOpcode::And)
        } else {
            Opcode::Binop(BinopOpcode::Or)
        }
    } else if family == 5 {
        if variant == 0 {
            Opcode::Shift(ShiftOpcode::Shl)
        } else if variant == 1 {
            Opcode::Shift(ShiftOpcode::Shr)
        } else if variant == 2 {
            Opcode::Shift(ShiftOpcode::Rol)
        } else {
            Opcode::Shift(ShiftOpcode::Ror)
        }
    } else if family == 6 {
        if variant == 0 {
            Opcode::Ptr(PtrOpcode::Add)
        } else if variant == 1 {
            Opcode::Ptr(PtrOpcode::Sub)
        } else if variant == 2 {
            Opcode::Ptr(PtrOpcode::Pack)
        } else {
            Opcode::Ptr(PtrOpcode::Shrink)
        }
    } else {
        if variant == 0 {
            Opcode::Ret(RetOpcode::Normal)
        } else if variant == 1 {
            Opcode::Ret(RetOpcode::Revert)
        } else {
            Opcode::Ret(RetOpcode::Panic)
        }
    }
}

/// A decoded instruction variant: opcode, the addressing modes of its first
/// source and destination operands, and its non-exclusive flag bits.
#[derive(Clone, Copy, Debug, PartialEq, Eq)]
pub struct OpcodeVariant {
    pub opcode: Opcode,
    pub src0_operand_type: Operand,
    pub dst0_operand_type: Operand,
    pub flags: [bool; 1],
}

impl OpcodeVariant {
    /// Whether this variant requests the wholesale flag update.
    pub open spec fn set_flags(self) -> bool {
        self.flags[SET_FLAGS_FLAG_IDX as int]
    }

    /// The sentinel that fills every slot of the decoding table no legal
    /// instruction claims.
    pub open spec fn invalid_spec() -> OpcodeVariant {
        OpcodeVariant {
            opcode: Opcode::Invalid(InvalidOpcode),
            src0_operand_type: Operand::RegOnly,
            dst0_operand_type: Operand::RegOnly,
            flags: [false],
        }
    }

    /// The sentinel for unclaimed decoding-table slots.
    pub fn invalid() -> (r: OpcodeVariant)
        ensures
            r == OpcodeVariant::invalid_spec(),
    {
        let r = OpcodeVariant {
            opcode: Opcode::Invalid(InvalidOpcode),
            src0_operand_type: Operand::RegOnly,
            dst0_operand_type: Operand::RegOnly,
            flags: [false],
        };
        proof {
            assert(r.flags =~= OpcodeVariant::invalid_spec().flags);
        }
        r
    }

    /// A legal opcode variant: the opcode is a real family member, each
    /// operand is drawn from the catalog its family declares (and is legal
    /// as a destination where it stands for one), and a set flag bit is only
    /// carried by a family that may set flags.
    pub open spec fn wf(self) -> bool {
        let family = self.opcode.family_code();
        &&& 0 <= family < 8
        &&& self.in_variant_range()
        &&& operand_in_catalog(self.src0_operand_type, family_src_catalog(family), false)
        &&& operand_in_catalog(self.dst0_operand_type, family_dst_catalog(family), true)
        &&& (self.set_flags() ==> family_can_set_flags(family))
    }

    /// The variant index is within its family's count; separate from [`Self::wf`]
    /// only for readability.
    pub open spec fn in_variant_range(self) -> bool {
        self.opcode.in_family_index() < family_variant_count(self.opcode.family_code())
    }

    /// Whether this variant touches memory through its source operand.
    pub open spec fn src_is_memory(self) -> bool {
        self.src0_operand_type.is_memory_operand()
    }

    /// Whether this variant touches memory through its destination operand.
    pub open spec fn dst_is_memory(self) -> bool {
        self.dst0_operand_type.is_memory_operand()
    }
}

/// Whether `operand` is a legal draw from `catalog`; for a destination
/// operand the mode must additionally be legal as a destination.
pub open spec fn operand_in_catalog(operand: Operand, catalog: OperandCatalog, is_dst: bool) -> bool {
    match catalog {
        OperandCatalog::RegOnly => operand == Operand::RegOnly,
        OperandCatalog::RegOrImm => match operand {
            Operand::RegOrImm(m) => is_dst ==> m.spec_is_allowed_for_dst(),
            _ => false,
        },
        OperandCatalog::Full => match operand {
            Operand::Full(m) => is_dst ==> m.spec_is_allowed_for_dst(),
            _ => false,
        },
    }
}

/// The largest number of variants any family of this generation has.
pub fn max_num_variants_for_version(version: ISAVersion) -> (r: usize)
    ensures
        r == 4,
        forall|family: int| 0 <= family < 8 ==> family_variant_count(family) <= r,
{
    let _ = version;
    4
}

/// The largest number of non-exclusive flags any family of this generation
/// has.
pub fn max_num_flags_for_version(version: ISAVersion) -> (r: usize)
    ensures
        r == NUM_NON_EXCLUSIVE_FLAGS,
{
    let _ = version;
    1
}

/// Bits of the flattened opcode description: one bit per family, the maximal
/// variant count, the maximal flag count, and one-hot input and output
/// addressing-mode bits.
pub fn total_description_bits_for_version(version: ISAVersion) -> (r: usize)
    ensures
        r == NUM_OPCODES + 4 + NUM_NON_EXCLUSIVE_FLAGS + OPCODE_INPUT_VARIANT_FLAGS
            + OPCODE_OUTPUT_VARIANT_FLAGS,
        r == 23,
{
    NUM_OPCODES + max_num_variants_for_version(version) + max_num_flags_for_version(version)
        + OPCODE_INPUT_VARIANT_FLAGS + OPCODE_OUTPUT_VARIANT_FLAGS
}

/// The flattened description bits rounded up to the next multiple of
/// [`WIDTH_MULTIPLE`].
pub fn total_description_bits_rounded_for_version(version: ISAVersion) -> (r: usize)
    ensures
        r % WIDTH_MULTIPLE == 0,
        total_description_bits_for_version_spec() <= r
            < total_description_bits_for_version_spec() + WIDTH_MULTIPLE,
        r == 32,
{
    let mut total = NUM_OPCODES + max_num_variants_for_version(version)
        + max_num_flags_for_version(version) + OPCODE_INPUT_VARIANT_FLAGS
        + OPCODE_OUTPUT_VARIANT_FLAGS;
    if total % WIDTH_MULTIPLE != 0 {
        total += WIDTH_MULTIPLE - total % WIDTH_MULTIPLE;
    }
    total
}

/// The flattened description bit count, as a specification value.
pub open spec fn total_description_bits_for_version_spec() -> int {
    NUM_OPCODES + 4 + NUM_NON_EXCLUSIVE_FLAGS + OPCODE_INPUT_VARIANT_FLAGS
        + OPCODE_OUTPUT_VARIANT_FLAGS
}

/// The rounded description bits plus the auxiliary kernel-mode, static-context
/// and explicit-panic bits.
pub fn total_opcode_description_and_aux_bits_for_version(version: ISAVersion) -> (r: usize)
    ensures
        r == 32 + TOTAL_AUX_BITS,
        r == 35,
{
    total_description_bits_rounded_for_version(version) + TOTAL_AUX_BITS
}


/// Ergs price of a slot whose encoding is not a legal instruction: burns
/// everything at once.
pub const INVALID_OPCODE_ERGS: u32 = 0xFFFF_FFFF;

/// Base circuit cost of one interpreter cycle, in ergs.
pub const VM_CYCLE_COST_IN_ERGS: u32 = 4;

/// Circuit cost of one RAM permutation, in ergs.
pub const RAM_PERMUTATION_COST_IN_ERGS: u32 = 1;

/// Price of a variant that reads or writes an operand through memory: such
/// rich addressing takes extra RAM permutations beyond the average opcode.
pub const RICH_ADDRESSING_OPCODE_ERGS: u32 = VM_CYCLE_COST_IN_ERGS + 2
    * RAM_PERMUTATION_COST_IN_ERGS;

/// Price of an average, register-only variant.
pub const AVERAGE_OPCODE_ERGS: u32 = VM_CYCLE_COST_IN_ERGS + RAM_PERMUTATION_COST_IN_ERGS;

/// I/O surcharge of a storage read, in ergs.
pub const STORAGE_READ_IO_PRICE: u32 = 150;

/// I/O surcharge of a storage write, in ergs.
pub const STORAGE_WRITE_IO_PRICE: u32 = 250;

/// I/O surcharge of an emitted event, in ergs.
pub const EVENT_IO_PRICE: u32 = 25;

/// I/O surcharge of a message to L1, in ergs.
pub const L1_MESSAGE_IO_PRICE: u32 = 100;

/// Cost of creating one new call-stack entry, in ergs.
pub const CALL_LIKE_ERGS_COST: u32 = 20;

impl OpcodeVariant {
    /// The ergs price of this decoded slot: everything for the invalid
    /// sentinel, the rich-addressing price when either operand goes through
    /// memory, the average price otherwise.
    pub open spec fn ergs_price_spec(self) -> u32 {
        if self.opcode is Invalid {
            INVALID_OPCODE_ERGS
        } else if self.src_is_memory() || self.dst_is_memory() {
            RICH_ADDRESSING_OPCODE_ERGS
        } else {
            AVERAGE_OPCODE_ERGS
        }
    }

    /// The ergs price of this decoded slot.
    pub fn ergs_price(&self) -> (r: u32)
        ensures
            r == self.ergs_price_spec(),
    {
        if matches!(self.opcode, Opcode::Invalid(_)) {
            INVALID_OPCODE_ERGS
        } else {
            let src_mem = match self.src0_operand_type {
                Operand::Full(mode) => mode.is_memory_used(),
                _ => false,
            };
            let dst_mem = match self.dst0_operand_type {
                Operand::Full(mode) => mode.is_memory_used(),
                _ => false,
            };
            if src_mem || dst_mem {
                RICH_ADDRESSING_OPCODE_ERGS
            } else {
                AVERAGE_OPCODE_ERGS
            }
        }
    }
}

} // verus!
