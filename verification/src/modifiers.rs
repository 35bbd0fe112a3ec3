//! Addressing-mode catalogs: the full set of operand sourcing/sinking modes
//! and the reduced register-or-immediate set used by opcode families that
//! forbid memory operands, together with their stable encoding indices.

use vstd::prelude::*;

verus! {

/// The full addressing-mode catalog: register, four stack/code-page variants
/// and a 16-bit immediate.
#[derive(Clone, Copy, Debug, PartialEq, Eq, Structural)]
pub enum ImmMemHandlerFlags {
    UseRegOnly,
    UseStackWithPushPop,
    UseStackWithOffset,
    UseAbsoluteOnStack,
    UseImm16Only,
    UseCodePage,
}

/// The reduced addressing-mode catalog for opcode families that never touch
/// memory: register or 16-bit immediate only.
///
/// Its two encoding bytes coincide with the bytes the same modes have in the
/// full catalog (see [`lemma_reduced_catalog_encoding_agrees`]), so a decoder
/// can treat them uniformly.
#[derive(Clone, Copy, Debug, PartialEq, Eq, Structural)]
pub enum RegOrImmFlags {
    UseRegOnly,
    UseImm16Only,
}

impl ImmMemHandlerFlags {
    /// Every mode of the full catalog, in encoding order.
    pub fn all_variants() -> (r: [ImmMemHandlerFlags; 6])
        ensures
            r@.len() == 6,
            forall|i: int| 0 <= i < 6 ==> #[trigger] r@[i].variant_index() == i,
    {
        let r = [
            ImmMemHandlerFlags::UseRegOnly,
            ImmMemHandlerFlags::UseStackWithPushPop,
            ImmMemHandlerFlags::UseStackWithOffset,
            ImmMemHandlerFlags::UseAbsoluteOnStack,
            ImmMemHandlerFlags::UseImm16Only,
            ImmMemHandlerFlags::UseCodePage,
        ];
        assert(forall|i: int| 0 <= i < 6 ==> #[trigger] r@[i].variant_index() == i);
        r
    }

    /// Stable index of this mode in instruction encodings.
    pub open spec fn variant_index(self) -> int {
        match self {
            ImmMemHandlerFlags::UseRegOnly => 0,
            ImmMemHandlerFlags::UseStackWithPushPop => 1,
            ImmMemHandlerFlags::UseStackWithOffset => 2,
            ImmMemHandlerFlags::UseAbsoluteOnStack => 3,
            ImmMemHandlerFlags::UseImm16Only => 4,
            ImmMemHandlerFlags::UseCodePage => 5,
        }
    }

    /// The encoding byte equals the stable variant index.
    pub fn encoding_byte(&self) -> (r: u8)
        ensures
            r == self.variant_index(),
    {
        match self {
            ImmMemHandlerFlags::UseRegOnly => 0,
            ImmMemHandlerFlags::UseStackWithPushPop => 1,
            ImmMemHandlerFlags::UseStackWithOffset => 2,
            ImmMemHandlerFlags::UseAbsoluteOnStack => 3,
            ImmMemHandlerFlags::UseImm16Only => 4,
            ImmMemHandlerFlags::UseCodePage => 5,
        }
    }

    /// Whether resolving an operand in this mode touches memory.
    pub open spec fn spec_is_memory_used(&self) -> bool {
        !(self == ImmMemHandlerFlags::UseRegOnly || self == ImmMemHandlerFlags::UseImm16Only)
    }

    /// Whether resolving an operand in this mode touches memory.
    #[verifier::when_used_as_spec(spec_is_memory_used)]
    pub fn is_memory_used(&self) -> (r: bool)
        ensures
            r == self.spec_is_memory_used(),
    {
        !matches!(self, ImmMemHandlerFlags::UseRegOnly | ImmMemHandlerFlags::UseImm16Only)
    }

    /// Number of modes in the full catalog.
    pub fn num_variants() -> (r: usize)
        ensures
            r == 6,
    {
        6
    }

    /// Number of modes legal for a source operand.
    pub fn num_src_variants() -> (r: usize)
        ensures
            r == 6,
    {
        6
    }

    /// Number of modes legal for a destination operand.
    pub fn num_dst_variants() -> (r: usize)
        ensures
            r == 4,
    {
        4
    }

    /// Whether this mode is legal as a destination: immediates and code-page
    /// reads cannot be written to.
    pub open spec fn spec_is_allowed_for_dst(&self) -> bool {
        !(self == ImmMemHandlerFlags::UseImm16Only || self == ImmMemHandlerFlags::UseCodePage)
    }

    /// Whether this mode is legal as a destination.
    #[verifier::when_used_as_spec(spec_is_allowed_for_dst)]
    pub fn is_allowed_for_dst(&self) -> (r: bool)
        ensures
            r == self.spec_is_allowed_for_dst(),
    {
        !matches!(self, ImmMemHandlerFlags::UseImm16Only | ImmMemHandlerFlags::UseCodePage)
    }
}

impl RegOrImmFlags {
    /// Every mode of the reduced catalog, in encoding order.
    pub fn all_variants() -> (r: [RegOrImmFlags; 2])
        ensures
            r@.len() == 2,
            r@[0] == RegOrImmFlags::UseRegOnly,
            r@[1] == RegOrImmFlags::UseImm16Only,
    {
        [RegOrImmFlags::UseRegOnly, RegOrImmFlags::UseImm16Only]
    }

    /// Stable index of this mode in instruction encodings; identical to the
    /// index the same mode has in the full catalog.
    pub open spec fn variant_index(self) -> int {
        match self {
            RegOrImmFlags::UseRegOnly => 0,
            RegOrImmFlags::UseImm16Only => 4,
        }
    }

    /// The encoding byte equals the stable variant index.
    pub fn encoding_byte(&self) -> (r: u8)
        ensures
            r == self.variant_index(),
    {
        match self {
            RegOrImmFlags::UseRegOnly => 0,
            RegOrImmFlags::UseImm16Only => 4,
        }
    }

    /// No mode of the reduced catalog ever touches memory.
    pub fn is_memory_used(&self) -> (r: bool)
        ensures
            r == false,
    {
        false
    }

    /// Number of modes in the reduced catalog.
    pub fn num_variants() -> (r: usize)
        ensures
            r == 2,
    {
        2
    }

    /// Number of modes legal for a source operand.
    pub fn num_src_variants() -> (r: usize)
        ensures
            r == 2,
    {
        2
    }

    /// Number of modes legal for a destination operand.
    pub fn num_dst_variants() -> (r: usize)
        ensures
            r == 1,
    {
        1
    }

    /// Whether this mode is legal as a destination.
    pub open spec fn spec_is_allowed_for_dst(&self) -> bool {
        self != RegOrImmFlags::UseImm16Only
    }

    /// Whether this mode is legal as a destination.
    #[verifier::when_used_as_spec(spec_is_allowed_for_dst)]
    pub fn is_allowed_for_dst(&self) -> (r: bool)
        ensures
            r == self.spec_is_allowed_for_dst(),
    {
        !matches!(self, RegOrImmFlags::UseImm16Only)
    }
}

/// The encoding bytes of "register only" and "immediate only" are identical
/// across the reduced and the full catalog, so the decoder may treat those
/// bits uniformly whichever catalog an opcode family declares.
pub proof fn lemma_reduced_catalog_encoding_agrees()
    ensures
        RegOrImmFlags::UseRegOnly.variant_index()
            == ImmMemHandlerFlags::UseRegOnly.variant_index(),
        RegOrImmFlags::UseImm16Only.variant_index()
            == ImmMemHandlerFlags::UseImm16Only.variant_index(),
{
}

/// An operand declaration of a decoded instruction: either no real operand,
/// a mode of the reduced catalog, or a mode of the full catalog.
#[derive(Clone, Copy, Debug, PartialEq, Eq, Structural)]
pub enum Operand {
    RegOnly,
    RegOrImm(RegOrImmFlags),
    Full(ImmMemHandlerFlags),
}

impl Operand {
    /// Whether resolving an operand declared this way touches memory.
    pub open spec fn is_memory_operand(self) -> bool {
        match self {
            Operand::RegOnly => false,
            Operand::RegOrImm(_) => false,
            Operand::Full(mode) => mode.spec_is_memory_used(),
        }
    }
}

} // verus!
