use vstd::prelude::*;

verus! {

/// A breach of the boundary contract: a programmer error on one side of the
/// native call, never a legitimate outcome of the computation. Callers are
/// expected to stop the process rather than cross the boundary with it.
#[derive(Clone, Copy, Debug, PartialEq, Eq, Structural)]
pub enum Violation {
    /// An operation was issued before the native library was initialized.
    NotInitialized,
    /// The native load returned no keypair handle.
    NullKeypair,
    /// The dimension exceeds a `u32`, or its `n^4` cells exceed the address space.
    DimensionTooLarge,
    /// A proving or verification key is longer than a 32-bit signed length.
    KeyMaterialTooLong,
    /// The puzzle does not hold exactly `n^4` cells.
    PuzzleLength,
    /// The solution does not hold exactly `n^4` cells.
    SolutionLength,
    /// The symmetric key is not 32 bytes long.
    KeyLength,
    /// The hash of the key is not 32 bytes long.
    HashOfKeyLength,
    /// The encrypted solution does not hold exactly `n^4` cells.
    EncryptedSolutionLength,
    /// A callback reported a dimension other than the context's.
    DimensionMismatch,
    /// A callback delivered a null buffer.
    NullBuffer,
    /// A callback delivered a negative buffer length.
    NegativeLength,
    /// A callback fired a second time within one native call.
    RepeatedCallback,
    /// A native call that owed a callback returned without firing it.
    MissingCallback,
    /// A proof generation reported success but delivered an empty proof.
    EmptyProof,
}

impl Violation {
    /// A short human-readable description of the breach.
    pub fn describe(&self) -> &'static str {
        match self {
            Violation::NotInitialized => "native library used before initialization",
            Violation::NullKeypair => "native load returned a null keypair handle",
            Violation::DimensionTooLarge => "grid dimension too large for u32 or for n^4 cells in memory",
            Violation::KeyMaterialTooLong => "key material longer than a 32-bit length",
            Violation::PuzzleLength => "puzzle length differs from n^4",
            Violation::SolutionLength => "solution length differs from n^4",
            Violation::KeyLength => "key length differs from 32",
            Violation::HashOfKeyLength => "hash-of-key length differs from 32",
            Violation::EncryptedSolutionLength => "encrypted solution length differs from n^4",
            Violation::DimensionMismatch => "callback dimension differs from the context's",
            Violation::NullBuffer => "callback delivered a null buffer",
            Violation::NegativeLength => "callback delivered a negative length",
            Violation::RepeatedCallback => "callback fired more than once",
            Violation::MissingCallback => "callback did not fire",
            Violation::EmptyProof => "successful proof generation delivered an empty proof",
        }
    }
}

} // verus!
