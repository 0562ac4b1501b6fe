//! The numeric syscall ABI shared with the host.
//!
//! Each opcode, its operand arity and its result slots are a fixed contract
//! with the host; the numbers below must be preserved exactly.  Failures
//! never cross the boundary as exceptions: each opcode defines its own
//! sentinel (maximum-value index, null address, negative length) that the
//! caller checks explicitly.

use vstd::prelude::*;

verus! {

/// The opcodes of the numeric syscall interface.
#[derive(Clone, Copy, PartialEq, Eq, Structural, Debug)]
pub enum SysCalls {
    Print,
    RegisterCallback,
    SetDecision,
    BackendDecision,
    HashData,
    HeaderFieldRetrieve,
    HeaderFieldAppend,
    HeaderFieldSet,
    HeaderFieldFind,
    RegisterNamedFunction,
    Base64Decode,
}

/// The opcode number of a syscall, as the host's trap handler expects it.
pub open spec fn spec_opcode(s: SysCalls) -> u32 {
    match s {
        SysCalls::Print => 502,
        SysCalls::RegisterCallback => 509,
        SysCalls::SetDecision => 510,
        SysCalls::BackendDecision => 512,
        SysCalls::HashData => 514,
        SysCalls::HeaderFieldRetrieve => 521,
        SysCalls::HeaderFieldAppend => 522,
        SysCalls::HeaderFieldSet => 523,
        SysCalls::HeaderFieldFind => 530,
        SysCalls::RegisterNamedFunction => 539,
        SysCalls::Base64Decode => 538,
    }
}

impl SysCalls {
    /// Marshals the opcode into the numeric register value the host decodes.
    pub fn opcode(self) -> (r: u32)
        ensures
            r == spec_opcode(self),
    {
        match self {
            SysCalls::Print => 502,
            SysCalls::RegisterCallback => 509,
            SysCalls::SetDecision => 510,
            SysCalls::BackendDecision => 512,
            SysCalls::HashData => 514,
            SysCalls::HeaderFieldRetrieve => 521,
            SysCalls::HeaderFieldAppend => 522,
            SysCalls::HeaderFieldSet => 523,
            SysCalls::HeaderFieldFind => 530,
            SysCalls::RegisterNamedFunction => 539,
            SysCalls::Base64Decode => 538,
        }
    }
}

/// Base opcode of the host-delegated memory primitives: allocation comes
/// first, then the bulk copy/move/fill/compare/scan family.
pub const NATIVE_SYSCALLS_BASE: u32 = 580;

/// A syscall frame: one opcode and up to five operand machine words, resolved
/// synchronously by the host into up to two result words.
pub struct SyscallFrame {
    pub op: SysCalls,
    pub args: [u64; 5],
}

impl SyscallFrame {
    /// Marshals an opcode and its operand registers into one frame.
    pub fn new(op: SysCalls, a0: u64, a1: u64, a2: u64, a3: u64, a4: u64) -> (r: SyscallFrame)
        ensures
            r.op == op,
            r.args@ == seq![a0, a1, a2, a3, a4],
    {
        let args = [a0, a1, a2, a3, a4];
        proof {
            assert(args@ =~= seq![a0, a1, a2, a3, a4]);
        }
        SyscallFrame { op, args }
    }
}

} // verus!
