use vstd::prelude::*;

use crate::error::PipelineError;

verus! {

/// The outcome of a testing assembly: whether its constraints hold, and the
/// value of its single public input. An assembly with other than one public
/// input assignment and one input gate breaks the contract of the circuit
/// under test and gives `PublicInputCount`.
pub fn satisfiability_result<F: Copy>(
    is_satisfied: bool,
    input_assignments: &Vec<F>,
    num_input_gates: usize,
) -> (r: Result<(bool, F), PipelineError>)
    ensures
        input_assignments@.len() == 1 && num_input_gates == 1 ==> r == Ok::<
            (bool, F),
            PipelineError,
        >((is_satisfied, input_assignments@[0])),
        !(input_assignments@.len() == 1 && num_input_gates == 1) ==> r == Err::<
            (bool, F),
            PipelineError,
        >(PipelineError::PublicInputCount),
{
    if input_assignments.len() != 1 || num_input_gates != 1 {
        return Err(PipelineError::PublicInputCount);
    }
    let public_input = input_assignments[0];
    Ok((is_satisfied, public_input))
}

} // verus!
