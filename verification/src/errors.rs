use vstd::prelude::*;

verus! {

/// The failures a proof round can surface.
///
/// A failed verification is *not* among them: whether a proof checks out is
/// an ordinary boolean outcome, returned as a value.
#[derive(Clone, Copy, Debug, PartialEq, Eq, Structural)]
pub enum GameError {
    /// A value cannot be represented in the fixed-width field encoding
    /// that the proving backend expects.
    EncodingOverflow,
    /// The constraint matrices disagree with the declared constraint or
    /// variable counts; indicates a circuit-definition bug.
    ShapeMismatch,
    /// The assembled witness does not satisfy the constraint system.
    /// Detected locally, before the backend is ever asked to prove.
    WitnessConstraintViolation,
    /// A proof object could not be carried to or from its byte form.
    /// Distinct from a proof that parses but fails verification.
    ProofDeserializationError,
}

} // verus!
