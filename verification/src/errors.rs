use vstd::prelude::*;

verus! {

/// Errors surfaced by the decoder front end.
///
/// The propagation policy is fail-fast: a truncated or unreadable source is
/// not something the decoder can continue past, since byte alignment would
/// be lost.
#[derive(Debug, Clone, PartialEq, Eq)]
pub enum EmulatorError {
    /// The byte source reported an I/O-level failure; the remaining decode
    /// is aborted and the failure is propagated unchanged.
    SourceReadFailure { message: String },
    /// An opcode's rule required more immediate bytes than remained in the
    /// source; no partial instruction is emitted for that opcode.
    TruncatedOperand,
    /// A bit pattern handed to the matcher is not 8 symbols drawn from
    /// `'0'`, `'1'` and `'_'`. This is an authoring error, never a runtime
    /// decode failure.
    InvalidPattern,
}

} // verus!
