//! The decisions made while driving a PLONK prover through its lifecycle:
//! the order of the steps from circuit to verified proof and when a run
//! stops (`Pipeline`), padding circuits to powers of two, sizing and
//! truncating the trusted-setup basis, and reading the result of a testing
//! assembly. The prover's own work is done by the caller, step by step.

mod crs;
mod error;
mod pipeline;
mod satisfiability;
mod sizing;

pub use crs::{lemma_truncate_twice, truncate_bases, truncated};
pub use error::PipelineError;
pub use pipeline::{
    lemma_no_stage_skipped, lemma_proof_padded_as_setup, lemma_verified_only_if_valid, rank,
    transition, Action, Event, Goal, Pipeline, Stage,
};
pub use satisfiability::satisfiability_result;
pub use sizing::{
    is_pow2, is_power_of_two, lemma_next_pow2_bounds, lemma_padding_fits_setup_size,
    lemma_padding_policy, lemma_pow2_monotonic, natural_size, next_pow2, next_power_of_two,
    padded_gate_count, padding, pow2, pow2_checked, setup_size, trusted_setup_size,
};
