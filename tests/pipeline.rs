use std::marker::PhantomData;
use std::sync::Arc;

use bellman_ce::compact_bn256::Bn256;
use bellman_ce::kate_commitment::{Crs, CrsForMonomialForm};
use bellman_ce::plonk::better_better_cs::cs::{
    ArithmeticTerm, Circuit, ConstraintSystem, MainGateTerm,
    PlonkCsWidth4WithNextStepAndCustomGatesParams, ProvingAssembly, SetupAssembly,
    TrivialAssembly, Width4MainGateWithDNext,
};
use bellman_ce::plonk::better_better_cs::setup::VerificationKey;
use bellman_ce::plonk::better_better_cs::verifier::verify;
use bellman_ce::plonk::commitments::transcript::keccak_transcript::RollingKeccakTranscript;
use bellman_ce::worker::Worker;
use bellman_ce::plonk::better_better_cs::proof::Proof;
use bellman_ce::{Engine, Field, PrimeField, ScalarEngine, SynthesisError};

use circuit_testing::{
    padded_gate_count, satisfiability_result, truncate_bases, Action, Event, Goal, Pipeline,
    PipelineError, Stage,
};

type Params = PlonkCsWidth4WithNextStepAndCustomGatesParams;

/// A chain of fifteen additions, each checked as a + b - c = 0 with a = 42
/// and b = 43; c is their sum except in the addition numbered `broken`,
/// where it is 86. With
/// `public_input` set the first gate's `c` is also a public input.
struct Additions<E: Engine> {
    broken: Option<usize>,
    public_input: bool,
    _marker: PhantomData<E>,
}

impl<E: Engine> Circuit<E> for Additions<E> {
    type MainGate = Width4MainGateWithDNext;

    fn synthesize<CS: ConstraintSystem<E>>(&self, cs: &mut CS) -> Result<(), SynthesisError> {
        for i in 0..15 {
            let a_wit = E::Fr::from_str("42").unwrap();
            let b_wit = E::Fr::from_str("43").unwrap();
            let mut c_wit = a_wit;
            c_wit.add_assign(&b_wit);
            if self.broken == Some(i) {
                c_wit = E::Fr::from_str("86").unwrap();
            }

            let a = cs.alloc(|| Ok(a_wit))?;
            let b = cs.alloc(|| Ok(b_wit))?;
            let c = if self.public_input && i == 0 {
                cs.alloc_input(|| Ok(c_wit))?
            } else {
                cs.alloc(|| Ok(c_wit))?
            };

            let mut term = MainGateTerm::new();
            term.add_assign(ArithmeticTerm::from_variable(a));
            term.add_assign(ArithmeticTerm::from_variable(b));
            term.sub_assign(ArithmeticTerm::from_variable(c));
            cs.allocate_main_gate(term)?;
        }
        Ok(())
    }
}

type Fr = <Bn256 as ScalarEngine>::Fr;
type Keccak = RollingKeccakTranscript<Fr>;

/// Runs the pipeline towards a verified proof of `circuit`, padded to 16
/// slots, up to the point where the proof is to be checked.
fn prove_sixteen_slots(
    circuit: &Additions<Bn256>,
) -> (Pipeline, Proof<Bn256, Additions<Bn256>>, VerificationKey<Bn256, Additions<Bn256>>) {
    let worker = Worker::new();
    let (mut pipeline, action) = Pipeline::new(Goal::ProveAndVerify, Some(4));
    assert_eq!(action, Action::BuildSetup { size_log_2: Some(4) });

    let mut setup_assembly = SetupAssembly::<Bn256, Params, Width4MainGateWithDNext>::new();
    circuit.synthesize(&mut setup_assembly).unwrap();
    assert_eq!(setup_assembly.n(), 15);
    let table_entries =
        setup_assembly.num_table_lookups + setup_assembly.total_length_of_all_tables;
    assert_eq!(padded_gate_count(setup_assembly.n(), table_entries, Some(4)), Ok(15));
    setup_assembly.finalize_to_size_log_2(4);
    let setup = setup_assembly.create_setup::<Additions<Bn256>>(&worker).unwrap();
    assert_eq!(setup.n, 15);

    let action = pipeline.step(Event::SetupCreated { n: setup.n });
    assert_eq!(action, Ok(Action::LoadTrustedSetup { size: 16 }));
    let mut crs = Crs::<Bn256, CrsForMonomialForm>::crs_42(32, &worker);
    let bases = Arc::get_mut(&mut crs.g1_bases).unwrap();
    assert_eq!(truncate_bases(bases, 16), Ok(()));
    assert_eq!(crs.g1_bases.len(), 16);

    let action = pipeline.step(Event::TrustedSetupLoaded);
    assert_eq!(action, Ok(Action::BuildProof { size_log_2: Some(4) }));
    let mut assembly = ProvingAssembly::<Bn256, Params, Width4MainGateWithDNext>::new();
    circuit.synthesize(&mut assembly).unwrap();
    assert_eq!(padded_gate_count(assembly.n(), 0, Some(4)), Ok(15));
    assembly.finalize_to_size_log_2(4);
    assert_eq!(assembly.n(), 15);
    let proof = assembly
        .create_proof::<Additions<Bn256>, Keccak>(&worker, &setup, &crs, None)
        .unwrap();

    assert_eq!(pipeline.step(Event::ProofCreated), Ok(Action::DeriveKey));
    let vk = VerificationKey::from_setup(&setup, &worker, &crs).unwrap();
    assert_eq!(pipeline.step(Event::KeyCreated), Ok(Action::CheckProof));
    (pipeline, proof, vk)
}

#[test]
fn fifteen_additions_padded_to_sixteen_prove_and_verify() {
    let circuit = Additions::<Bn256> { broken: None, public_input: false, _marker: PhantomData };
    let (mut pipeline, proof, vk) = prove_sixteen_slots(&circuit);
    let valid = verify::<Bn256, Additions<Bn256>, Keccak>(&vk, &proof, None).unwrap();
    assert!(valid);
    assert_eq!(pipeline.step(Event::ProofChecked { valid }), Ok(Action::Done));
    assert_eq!(pipeline.stage(), Stage::Verified);
}

#[test]
fn tampered_proof_is_rejected() {
    let circuit = Additions::<Bn256> { broken: None, public_input: false, _marker: PhantomData };
    let (mut pipeline, mut proof, vk) = prove_sixteen_slots(&circuit);
    proof.quotient_poly_opening_at_z.add_assign(&Fr::one());
    let valid = matches!(verify::<Bn256, Additions<Bn256>, Keccak>(&vk, &proof, None), Ok(true));
    assert!(!valid);
    assert_eq!(
        pipeline.step(Event::ProofChecked { valid }),
        Err(PipelineError::VerificationFailed)
    );
    assert_eq!(pipeline.stage(), Stage::Rejected);
}

#[test]
fn broken_addition_is_not_satisfied() {
    let circuit = Additions::<Bn256> { broken: Some(7), public_input: false, _marker: PhantomData };
    let mut assembly = TrivialAssembly::<Bn256, Params, Width4MainGateWithDNext>::new();
    circuit.synthesize(&mut assembly).unwrap();
    assembly.finalize();
    assert!(!assembly.is_satisfied());
}

#[test]
fn single_public_input_is_reported() {
    let circuit = Additions::<Bn256> { broken: None, public_input: true, _marker: PhantomData };
    let mut assembly = TrivialAssembly::<Bn256, Params, Width4MainGateWithDNext>::new();
    circuit.synthesize(&mut assembly).unwrap();
    assembly.finalize();
    let result = satisfiability_result(
        assembly.is_satisfied(),
        &assembly.input_assingments,
        assembly.num_input_gates,
    );
    let expected = Fr::from_str("85").unwrap();
    assert_eq!(result, Ok((true, expected)));
}

#[test]
fn single_public_input_with_broken_addition_is_not_satisfied() {
    let circuit = Additions::<Bn256> { broken: Some(3), public_input: true, _marker: PhantomData };
    let mut assembly = TrivialAssembly::<Bn256, Params, Width4MainGateWithDNext>::new();
    circuit.synthesize(&mut assembly).unwrap();
    assembly.finalize();
    let result = satisfiability_result(
        assembly.is_satisfied(),
        &assembly.input_assingments,
        assembly.num_input_gates,
    );
    assert!(matches!(result, Ok((false, _))));
}
