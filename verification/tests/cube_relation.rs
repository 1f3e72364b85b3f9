use bellman::gadgets::test::TestConstraintSystem;
use bellman::groth16::{create_random_proof, generate_random_parameters};
use bellman::{Circuit, ConstraintSystem, LinearCombination, SynthesisError, Variable};
use pairing::bls12_381::Bls12;
use rand::rngs::OsRng;
use tubular_bells::cube::{CubeCircuit, Synthesis, Wire};
use tubular_bells::field::get_constant;
use tubular_bells::proof_system::{
    proof_from_bytes, verify_cube_proof, verifying_key_from_bytes, VerifyError,
};

struct ReplayCube(CubeCircuit);

fn wire_var(wire: Wire, private_vars: &[Variable], public_vars: &[Variable]) -> Variable {
    match wire {
        Wire::One => TestConstraintSystem::<Bls12>::one(),
        Wire::Private(i) => private_vars[i],
        Wire::Public(i) => public_vars[i],
    }
}

impl Circuit<Bls12> for ReplayCube {
    fn synthesize<CS: ConstraintSystem<Bls12>>(self, cs: &mut CS) -> Result<(), SynthesisError> {
        let synthesis: Synthesis = self.0.synthesize();
        let mut private_vars = Vec::new();
        for (i, value) in synthesis.private_values.iter().copied().enumerate() {
            let v = cs.alloc(
                || format!("private {}", i),
                || value.ok_or(SynthesisError::AssignmentMissing),
            )?;
            private_vars.push(v);
        }
        let mut public_vars = Vec::new();
        for (i, value) in synthesis.public_values.iter().copied().enumerate() {
            let v = cs.alloc_input(
                || format!("public {}", i),
                || value.ok_or(SynthesisError::AssignmentMissing),
            )?;
            public_vars.push(v);
        }
        for (i, constraint) in synthesis.constraints.iter().enumerate() {
            let build = |terms: &[tubular_bells::cube::Term]| {
                let mut lc = LinearCombination::zero();
                for t in terms {
                    lc = lc + (get_constant(t.coeff), wire_var(t.wire, &private_vars, &public_vars));
                }
                lc
            };
            let (a, b, c) = (build(&constraint.a), build(&constraint.b), build(&constraint.c));
            cs.enforce(|| format!("constraint {}", i), |_| a, |_| b, |_| c);
        }
        Ok(())
    }
}

#[test]
fn cube_synthesis_shape_is_witness_independent() {
    let unassigned = CubeCircuit::default().synthesize();
    let assigned = CubeCircuit::new(get_constant(3)).synthesize();
    assert_eq!(unassigned.constraints.len(), assigned.constraints.len());
    for (u, a) in unassigned.constraints.iter().zip(assigned.constraints.iter()) {
        assert_eq!(u.a, a.a);
        assert_eq!(u.b, a.b);
        assert_eq!(u.c, a.c);
    }
    assert!(unassigned.private_values.iter().all(|v| v.is_none()));
    assert!(unassigned.public_values.iter().all(|v| v.is_none()));
}

#[test]
fn cube_synthesis_values_for_witness_three() {
    let synthesis = CubeCircuit::new(get_constant(3)).synthesize();
    assert_eq!(synthesis.private_values[0], Some(get_constant(3)));
    assert_eq!(synthesis.private_values[1], Some(get_constant(9)));
    assert_eq!(synthesis.private_values[2], Some(get_constant(27)));
    assert_eq!(synthesis.public_values[0], Some(get_constant(35)));
}

#[test]
fn cube_circuit_is_satisfied_with_three_constraints() {
    let mut cs = TestConstraintSystem::<Bls12>::new();
    ReplayCube(CubeCircuit::new(get_constant(3)))
        .synthesize(&mut cs)
        .unwrap();
    assert!(cs.is_satisfied());
    assert_eq!(cs.num_constraints(), 3);
}

#[test]
fn cube_proof_verifies_for_thirty_five_and_not_thirty_four() {
    let params =
        generate_random_parameters::<Bls12, _, _>(ReplayCube(CubeCircuit::default()), &mut OsRng)
            .unwrap();
    let proof = create_random_proof(
        ReplayCube(CubeCircuit::new(get_constant(3))),
        &params,
        &mut OsRng,
    )
    .unwrap();

    let mut vk_bytes = Vec::new();
    params.vk.write(&mut vk_bytes).unwrap();
    let mut proof_bytes = Vec::new();
    proof.write(&mut proof_bytes).unwrap();

    let vk = verifying_key_from_bytes(&vk_bytes).expect("verifying key blob");
    let proof = proof_from_bytes(&proof_bytes).expect("proof blob");

    assert_eq!(verify_cube_proof(35, &proof, &vk), Ok(true));
    assert_eq!(verify_cube_proof(34, &proof, &vk), Ok(false));
}

struct TwoPublicInputs;

impl Circuit<Bls12> for TwoPublicInputs {
    fn synthesize<CS: ConstraintSystem<Bls12>>(self, cs: &mut CS) -> Result<(), SynthesisError> {
        let a = cs.alloc_input(|| "a", || Ok(get_constant(1)))?;
        let b = cs.alloc_input(|| "b", || Ok(get_constant(1)))?;
        cs.enforce(|| "a equals b", |lc| lc + a, |lc| lc + CS::one(), |lc| lc + b);
        Ok(())
    }
}

#[test]
fn key_that_does_not_fit_the_inputs_is_a_scheme_error() {
    let cube_params =
        generate_random_parameters::<Bls12, _, _>(ReplayCube(CubeCircuit::default()), &mut OsRng)
            .unwrap();
    let proof = create_random_proof(
        ReplayCube(CubeCircuit::new(get_constant(3))),
        &cube_params,
        &mut OsRng,
    )
    .unwrap();
    let mut proof_bytes = Vec::new();
    proof.write(&mut proof_bytes).unwrap();
    let proof = proof_from_bytes(&proof_bytes).expect("proof blob");

    let other_params =
        generate_random_parameters::<Bls12, _, _>(TwoPublicInputs, &mut OsRng).unwrap();
    let mut vk_bytes = Vec::new();
    other_params.vk.write(&mut vk_bytes).unwrap();
    let wrong_vk = verifying_key_from_bytes(&vk_bytes).expect("verifying key blob");

    assert_eq!(
        verify_cube_proof(35, &proof, &wrong_vk),
        Err(VerifyError::ProofSystem)
    );
}

#[test]
fn corrupt_proof_blob_is_refused() {
    let garbage = vec![0xFFu8; 10];
    assert!(proof_from_bytes(&garbage).is_none());
    assert!(verifying_key_from_bytes(&garbage).is_none());
}
