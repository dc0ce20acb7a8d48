use vstd::prelude::*;

use crate::error::PipelineError;
use crate::sizing::{is_pow2, is_power_of_two};

verus! {

/// The first `size` elements of a commitment basis, which is ordered by
/// degree: truncation keeps the lowest degrees.
pub open spec fn truncated<G>(bases: Seq<G>, size: nat) -> Seq<G> {
    bases.take(size as int)
}

/// Cuts a trusted-setup basis down to exactly `size` elements, a power of
/// two that the basis must reach. On an error the basis is left as it was.
pub fn truncate_bases<G>(bases: &mut Vec<G>, size: usize) -> (r: Result<(), PipelineError>)
    ensures
        !is_pow2(size as nat) ==> r == Err::<(), PipelineError>(PipelineError::SizeNotPowerOfTwo)
            && final(bases)@ == old(bases)@,
        is_pow2(size as nat) && old(bases)@.len() < size ==> r == Err::<(), PipelineError>(
            PipelineError::TrustedSetupTooSmall,
        ) && final(bases)@ == old(bases)@,
        is_pow2(size as nat) && size <= old(bases)@.len() ==> r == Ok::<(), PipelineError>(())
            && final(bases)@ == truncated(old(bases)@, size as nat) && final(bases)@.len() == size,
{
    if !is_power_of_two(size) {
        return Err(PipelineError::SizeNotPowerOfTwo);
    }
    if bases.len() < size {
        return Err(PipelineError::TrustedSetupTooSmall);
    }
    bases.truncate(size);
    Ok(())
}

/// Truncating a basis to `s` and then to `t <= s` keeps the same prefix as
/// truncating it to `t` at once.
pub proof fn lemma_truncate_twice<G>(bases: Seq<G>, s: nat, t: nat)
    requires
        t <= s,
        s <= bases.len(),
    ensures
        truncated(truncated(bases, s), t) == truncated(bases, t),
{
    assert(truncated(truncated(bases, s), t) =~= truncated(bases, t));
}

} // verus!
