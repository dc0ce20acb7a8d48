use vstd::prelude::*;

use crate::error::PipelineError;
use crate::sizing::{setup_size, trusted_setup_size};

verus! {

/// What a run of the pipeline is for.
#[derive(Debug, Clone, Copy, PartialEq, Eq)]
pub enum Goal {
    /// Setup, trusted setup, proof, verification key, then a check of the
    /// proof against that key.
    ProveAndVerify,
    /// Setup, trusted setup, then a verification key.
    KeyOnly,
    /// Setup, trusted setup, proof, then a check against a key the caller has.
    ProveWithKey,
}

/// Where a run of the pipeline stands.
#[derive(Debug, Clone, Copy, PartialEq, Eq)]
pub enum Stage {
    CircuitDefined,
    SetupDerived,
    TrustedSetupLoaded,
    ProofDerived,
    KeyDerived,
    Verified,
    Rejected,
}

/// What the outside work of the last step produced.
#[derive(Debug, Clone, Copy, PartialEq, Eq)]
pub enum Event {
    /// A setup was derived; `n` is its padded gate count.
    SetupCreated { n: usize },
    TrustedSetupLoaded,
    ProofCreated,
    KeyCreated,
    ProofChecked { valid: bool },
}

/// The outside work to do next.
#[derive(Debug, Clone, Copy, PartialEq, Eq)]
pub enum Action {
    /// Synthesize a setup assembly, pad it per `size_log_2`, derive a setup.
    BuildSetup { size_log_2: Option<usize> },
    /// Load the trusted setup, cut to `size` bases.
    LoadTrustedSetup { size: usize },
    /// Synthesize a proving assembly, pad it per `size_log_2`, make a proof.
    BuildProof { size_log_2: Option<usize> },
    DeriveKey,
    CheckProof,
    Done,
}

/// The position of `stage` along the path that `goal` takes, or -1 where the
/// path does not pass it.
pub open spec fn rank(goal: Goal, stage: Stage) -> int {
    match (goal, stage) {
        (_, Stage::CircuitDefined) => 0,
        (_, Stage::SetupDerived) => 1,
        (_, Stage::TrustedSetupLoaded) => 2,
        (Goal::KeyOnly, Stage::KeyDerived) => 3,
        (Goal::KeyOnly, _) => -1,
        (_, Stage::ProofDerived) => 3,
        (Goal::ProveAndVerify, Stage::KeyDerived) => 4,
        (Goal::ProveAndVerify, Stage::Verified) => 5,
        (Goal::ProveWithKey, Stage::Verified) => 4,
        _ => -1,
    }
}

/// The stage after `event`, and the next action or why the run stops.
pub open spec fn transition(goal: Goal, size_log_2: Option<usize>, stage: Stage, event: Event) -> (
    Stage,
    Result<Action, PipelineError>,
) {
    match (stage, event) {
        (Stage::CircuitDefined, Event::SetupCreated { n }) => match setup_size(n, size_log_2) {
            Ok(size) => (Stage::SetupDerived, Ok(Action::LoadTrustedSetup { size })),
            Err(e) => (stage, Err(e)),
        },
        (Stage::SetupDerived, Event::TrustedSetupLoaded) => if goal == Goal::KeyOnly {
            (Stage::TrustedSetupLoaded, Ok(Action::DeriveKey))
        } else {
            (Stage::TrustedSetupLoaded, Ok(Action::BuildProof { size_log_2 }))
        },
        (Stage::TrustedSetupLoaded, Event::ProofCreated) => match goal {
            Goal::ProveAndVerify => (Stage::ProofDerived, Ok(Action::DeriveKey)),
            Goal::ProveWithKey => (Stage::ProofDerived, Ok(Action::CheckProof)),
            Goal::KeyOnly => (stage, Err(PipelineError::OutOfOrder)),
        },
        (Stage::TrustedSetupLoaded, Event::KeyCreated) => if goal == Goal::KeyOnly {
            (Stage::KeyDerived, Ok(Action::Done))
        } else {
            (stage, Err(PipelineError::OutOfOrder))
        },
        (Stage::ProofDerived, Event::KeyCreated) => if goal == Goal::ProveAndVerify {
            (Stage::KeyDerived, Ok(Action::CheckProof))
        } else {
            (stage, Err(PipelineError::OutOfOrder))
        },
        (Stage::KeyDerived, Event::ProofChecked { valid }) if goal == Goal::ProveAndVerify =>
            if valid {
            (Stage::Verified, Ok(Action::Done))
        } else {
            (Stage::Rejected, Err(PipelineError::VerificationFailed))
        },
        (Stage::ProofDerived, Event::ProofChecked { valid }) if goal == Goal::ProveWithKey =>
            if valid {
            (Stage::Verified, Ok(Action::Done))
        } else {
            (Stage::Rejected, Err(PipelineError::VerificationFailed))
        },
        _ => (stage, Err(PipelineError::OutOfOrder)),
    }
}

/// One run of the proving pipeline: it hands out the outside work to do in
/// order and takes back what that work produced.
pub struct Pipeline {
    goal: Goal,
    size_log_2: Option<usize>,
    stage: Stage,
}

impl Pipeline {
    pub closed spec fn goal_spec(&self) -> Goal {
        self.goal
    }

    pub closed spec fn size_log_2_spec(&self) -> Option<usize> {
        self.size_log_2
    }

    pub closed spec fn stage_spec(&self) -> Stage {
        self.stage
    }

    /// A run towards `goal` whose circuit is padded per `size_log_2`, and its
    /// first action: building the setup.
    pub fn new(goal: Goal, size_log_2: Option<usize>) -> (r: (Pipeline, Action))
        ensures
            r.0.goal_spec() == goal,
            r.0.size_log_2_spec() == size_log_2,
            r.0.stage_spec() == Stage::CircuitDefined,
            r.1 == (Action::BuildSetup { size_log_2 }),
    {
        (Pipeline { goal, size_log_2, stage: Stage::CircuitDefined }, Action::BuildSetup { size_log_2 })
    }

    pub fn stage(&self) -> (r: Stage)
        ensures
            r == self.stage_spec(),
    {
        self.stage
    }

    /// Takes the result of the last action and gives the next one. An event
    /// that does not follow from the stage gives `OutOfOrder`; a proof that
    /// does not verify gives `VerificationFailed` and the run is rejected.
    pub fn step(&mut self, event: Event) -> (r: Result<Action, PipelineError>)
        ensures
            final(self).goal_spec() == old(self).goal_spec(),
            final(self).size_log_2_spec() == old(self).size_log_2_spec(),
            (final(self).stage_spec(), r) == transition(
                old(self).goal_spec(),
                old(self).size_log_2_spec(),
                old(self).stage_spec(),
                event,
            ),
    {
        let goal = self.goal;
        let key_only = match goal {
            Goal::KeyOnly => true,
            _ => false,
        };
        let (stage, r) = match (self.stage, event) {
            (Stage::CircuitDefined, Event::SetupCreated { n }) => {
                match trusted_setup_size(n, self.size_log_2) {
                    Ok(size) => (Stage::SetupDerived, Ok(Action::LoadTrustedSetup { size })),
                    Err(e) => (self.stage, Err(e)),
                }
            },
            (Stage::SetupDerived, Event::TrustedSetupLoaded) => {
                if key_only {
                    (Stage::TrustedSetupLoaded, Ok(Action::DeriveKey))
                } else {
                    (Stage::TrustedSetupLoaded, Ok(Action::BuildProof { size_log_2: self.size_log_2 }))
                }
            },
            (Stage::TrustedSetupLoaded, Event::ProofCreated) => match goal {
                Goal::ProveAndVerify => (Stage::ProofDerived, Ok(Action::DeriveKey)),
                Goal::ProveWithKey => (Stage::ProofDerived, Ok(Action::CheckProof)),
                Goal::KeyOnly => (self.stage, Err(PipelineError::OutOfOrder)),
            },
            (Stage::TrustedSetupLoaded, Event::KeyCreated) => {
                if key_only {
                    (Stage::KeyDerived, Ok(Action::Done))
                } else {
                    (self.stage, Err(PipelineError::OutOfOrder))
                }
            },
            (Stage::ProofDerived, Event::KeyCreated) => match goal {
                Goal::ProveAndVerify => (Stage::KeyDerived, Ok(Action::CheckProof)),
                _ => (self.stage, Err(PipelineError::OutOfOrder)),
            },
            (Stage::KeyDerived, Event::ProofChecked { valid }) if matches!(
                goal,
                Goal::ProveAndVerify
            ) => {
                if valid {
                    (Stage::Verified, Ok(Action::Done))
                } else {
                    (Stage::Rejected, Err(PipelineError::VerificationFailed))
                }
            },
            (Stage::ProofDerived, Event::ProofChecked { valid }) if matches!(
                goal,
                Goal::ProveWithKey
            ) => {
                if valid {
                    (Stage::Verified, Ok(Action::Done))
                } else {
                    (Stage::Rejected, Err(PipelineError::VerificationFailed))
                }
            },
            _ => (self.stage, Err(PipelineError::OutOfOrder)),
        };
        self.stage = stage;
        r
    }
}

/// Every step that goes on moves the run exactly one stage further along the
/// path of its goal: no stage is skipped and none is taken twice.
pub proof fn lemma_no_stage_skipped(goal: Goal, size_log_2: Option<usize>, stage: Stage, event: Event)
    requires
        rank(goal, stage) >= 0,
    ensures
        transition(goal, size_log_2, stage, event).1 is Ok ==> rank(
            goal,
            transition(goal, size_log_2, stage, event).0,
        ) == rank(goal, stage) + 1,
{
}

/// A run reaches `Verified` only from a check that found the proof valid,
/// and a check that found it invalid ends the run with `VerificationFailed`.
pub proof fn lemma_verified_only_if_valid(
    goal: Goal,
    size_log_2: Option<usize>,
    stage: Stage,
    event: Event,
)
    requires
        stage != Stage::Verified,
    ensures
        transition(goal, size_log_2, stage, event).0 == Stage::Verified ==> event == (
        Event::ProofChecked { valid: true }),
        event == (Event::ProofChecked { valid: false }) ==> transition(
            goal,
            size_log_2,
            stage,
            event,
        ).1 is Err,
{
}

/// The proof is always built under the padding policy that the setup was
/// built under.
pub proof fn lemma_proof_padded_as_setup(
    goal: Goal,
    size_log_2: Option<usize>,
    stage: Stage,
    event: Event,
)
    ensures
        transition(goal, size_log_2, stage, event).1 matches Ok(Action::BuildProof { size_log_2: s })
            ==> s == size_log_2,
{
}

} // verus!
