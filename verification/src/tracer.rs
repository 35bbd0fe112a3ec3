//! The tracer hook protocol: four lifecycle hooks an external observer may
//! attach, fired in fixed order on every retired cycle — before decoding,
//! after decoding, before execution, after execution — even on a cycle that
//! ends in panic. Hooks are pure observers: they may read state and gather
//! side data of their own, but the interpreter never relies on them for any
//! mutation.

use vstd::prelude::*;

use crate::decode::DecodedOpcode;
use crate::state::{PreState, VmState};

verus! {

/// An observer of the interpreter's per-cycle lifecycle.
pub trait Tracer {
    /// Fired first, before the instruction word is decoded.
    fn before_decoding(&mut self, state: &VmState);

    /// Fired once the instruction word has been decoded.
    fn after_decoding(&mut self, state: &VmState, data: &DecodedOpcode);

    /// Fired once the operands are resolved, just before the handler runs.
    fn before_execution(&mut self, state: &VmState, data: &PreState);

    /// Fired last, after the handler has applied the opcode.
    fn after_execution(&mut self, state: &VmState);
}

/// The no-op tracer: plain execution without witness recording.
#[derive(Clone, Copy, Debug)]
pub struct GenericNoopTracer {}

impl GenericNoopTracer {
    /// A fresh no-op tracer.
    pub fn new() -> (r: GenericNoopTracer)
        ensures
            r == (GenericNoopTracer {  }),
    {
        GenericNoopTracer {  }
    }
}

impl Default for GenericNoopTracer {
    /// The default no-op tracer.
    fn default() -> (r: GenericNoopTracer)
        ensures
            r == (GenericNoopTracer {  }),
    {
        GenericNoopTracer {  }
    }
}

impl Tracer for GenericNoopTracer {
    fn before_decoding(&mut self, state: &VmState) {
    }

    fn after_decoding(&mut self, state: &VmState, data: &DecodedOpcode) {
    }

    fn before_execution(&mut self, state: &VmState, data: &PreState) {
    }

    fn after_execution(&mut self, state: &VmState) {
    }
}

} // verus!
