use bellman::gadgets::boolean::{AllocatedBit, Boolean};
use bellman::gadgets::sha256::sha256;
use bellman::gadgets::test::TestConstraintSystem;
use bellman::ConstraintSystem;
use pairing::bls12_381::Bls12;
use sha2::{Digest, Sha256};
use tubular_bells::bits::{bits_le_to_bytes, bytes_to_bits_le, reverse_bits_in_bytes};
use tubular_bells::codec::preimage_digest;
use tubular_bells::hash::{normalize_preimage, HashCircuit};

fn double_hash_wires<CS: ConstraintSystem<Bls12>>(
    cs: &mut CS,
    preimage_wires: &Vec<Boolean>,
) -> Vec<Boolean> {
    let input = reverse_bits_in_bytes(preimage_wires);
    let mid = sha256(cs.namespace(|| "first application"), &input).unwrap();
    let out = sha256(cs.namespace(|| "second application"), &mid).unwrap();
    reverse_bits_in_bytes(&out)
}

#[test]
fn double_hash_gadget_matches_library_digest() {
    let preimage = [0x2Au8; 80];
    let circuit = HashCircuit::new(preimage);
    let bit_values = circuit.preimage_bit_values();

    let mut cs = TestConstraintSystem::<Bls12>::new();
    let mut wires = Vec::new();
    for (i, value) in bit_values.iter().copied().enumerate() {
        let bit = AllocatedBit::alloc(cs.namespace(|| format!("preimage bit {}", i)), value)
            .unwrap();
        wires.push(Boolean::from(bit));
    }

    let digest_wires = double_hash_wires(&mut cs, &wires);
    assert!(cs.is_satisfied());
    assert_eq!(digest_wires.len(), 256);

    let digest_bits: Vec<bool> = digest_wires.iter().map(|b| b.get_value().unwrap()).collect();
    let digest_bytes = bits_le_to_bytes(&digest_bits);
    let expected = Sha256::digest(&Sha256::digest(&preimage[..]));
    assert_eq!(digest_bytes, expected.to_vec());
}

#[test]
fn reversal_swaps_bit_order_within_each_byte() {
    let pattern: Vec<bool> = (0..16).map(|i| i % 3 == 0).collect();
    let wires: Vec<Boolean> = pattern.iter().map(|&b| Boolean::constant(b)).collect();
    let reversed = reverse_bits_in_bytes(&wires);
    let values: Vec<bool> = reversed.iter().map(|b| b.get_value().unwrap()).collect();
    for i in 0..16 {
        assert_eq!(values[i], pattern[8 * (i / 8) + 7 - (i % 8)]);
    }
    let twice = reverse_bits_in_bytes(&reversed);
    let values_twice: Vec<bool> = twice.iter().map(|b| b.get_value().unwrap()).collect();
    assert_eq!(values_twice, pattern);
}

#[test]
fn bits_of_bytes_roundtrip() {
    let bytes: Vec<u8> = vec![0x00, 0x01, 0x80, 0xFF, 0x2A, 0xC3];
    let bits = bytes_to_bits_le(&bytes);
    assert_eq!(bits.len(), 48);
    assert!(bits[8]);
    assert!(!bits[9]);
    assert!(!bits[16]);
    assert!(bits[23]);
    assert_eq!(bits_le_to_bytes(&bits), bytes);
}

#[test]
fn long_preimage_is_truncated_in_the_reported_digest() {
    let input: Vec<u8> = (0..100u8).collect();
    let expected = base64::encode(Sha256::digest(&input[..80]));
    assert_eq!(preimage_digest(&input), expected);
}

#[test]
fn short_preimage_is_zero_filled_in_the_reported_digest() {
    let input: Vec<u8> = (0..10u8).collect();
    let mut padded = [0u8; 80];
    padded[..10].copy_from_slice(&input);
    let expected = base64::encode(Sha256::digest(&padded[..]));
    assert_eq!(preimage_digest(&input), expected);
    assert_eq!(normalize_preimage(&input), padded.to_vec());
}
