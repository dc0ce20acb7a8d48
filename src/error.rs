use vstd::prelude::*;

verus! {

/// Why a step of the proving pipeline could not go on.
#[derive(Debug, Clone, Copy, PartialEq, Eq)]
pub enum PipelineError {
    /// An explicit padding size is smaller than the circuit, or a setup was
    /// not padded to the size it was asked for.
    SizeMismatch,
    /// A size that must be a power of two is not one.
    SizeNotPowerOfTwo,
    /// A padded size does not fit in a machine word.
    SizeTooLarge,
    /// The trusted-setup basis holds fewer elements than required.
    TrustedSetupTooSmall,
    /// A testing assembly does not hold exactly one public input.
    PublicInputCount,
    /// A step of the pipeline came out of its order.
    OutOfOrder,
    /// A proof did not verify.
    VerificationFailed,
}

} // verus!
