use bellman::gadgets::multipack;
use pairing::bls12_381::Bls12;
use sha2::{Digest, Sha256};
use tubular_bells::lifecycle::{setup_action, SetupAction};
use tubular_bells::proof_system::{hash_public_inputs, VerifyError};

#[test]
fn hash_public_inputs_match_an_independent_packing() {
    let preimage = [0x2Au8; 80];
    let statement = base64::encode(Sha256::digest(&preimage[..]));

    let inputs = hash_public_inputs(&statement).unwrap();

    let double_digest = Sha256::digest(&Sha256::digest(&preimage[..]));
    let bits = multipack::bytes_to_bits_le(&double_digest);
    let expected = multipack::compute_multipacking::<Bls12>(&bits);
    assert_eq!(inputs, expected);
    assert_eq!(inputs.len(), 2);
}

#[test]
fn invalid_base64_statement_is_a_decode_error() {
    assert_eq!(
        hash_public_inputs("not!!base64"),
        Err(VerifyError::InvalidDigestEncoding)
    );
    assert!(hash_public_inputs("").is_ok());
}

#[test]
fn setup_runs_only_when_no_parameters_exist() {
    assert_eq!(setup_action(true, true), SetupAction::NoOp);
    assert_eq!(setup_action(true, false), SetupAction::DeriveVerifyingKey);
    assert_eq!(setup_action(false, true), SetupAction::RunSetup);
    assert_eq!(setup_action(false, false), SetupAction::RunSetup);
}
