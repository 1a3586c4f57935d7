use secp256r1_precompile::builder::{new_secp256r1_instruction, serialize_payload};
use secp256r1_precompile::engine::verify;
use secp256r1_precompile::offsets::Secp256r1SignatureOffsets;
use secp256r1_precompile::{FeatureSet, PrecompileError};

/// The order of the P-256 base-point group, big-endian.
const ORDER: [u8; 32] = [
    0xff, 0xff, 0xff, 0xff, 0x00, 0x00, 0x00, 0x00, 0xff, 0xff, 0xff, 0xff, 0xff, 0xff, 0xff,
    0xff, 0xbc, 0xe6, 0xfa, 0xad, 0xa7, 0x17, 0x9e, 0x84, 0xf3, 0xb9, 0xca, 0xc2, 0xfc, 0x63,
    0x25, 0x51,
];

const ORDER_MINUS_ONE: [u8; 32] = [
    0xff, 0xff, 0xff, 0xff, 0x00, 0x00, 0x00, 0x00, 0xff, 0xff, 0xff, 0xff, 0xff, 0xff, 0xff,
    0xff, 0xbc, 0xe6, 0xfa, 0xad, 0xa7, 0x17, 0x9e, 0x84, 0xf3, 0xb9, 0xca, 0xc2, 0xfc, 0x63,
    0x25, 0x50,
];

fn verify_standalone(data: &[u8]) -> Result<(), PrecompileError> {
    let empty: [&[u8]; 0] = [];
    verify(data, &empty, &FeatureSet::all_enabled())
}

/// A single-signature payload whose embedded signature is `r || s`, with an
/// all-zero public key and an empty message.
fn payload_with_sig(r: &[u8; 32], s: &[u8; 32]) -> Vec<u8> {
    let mut sig = [0u8; 64];
    sig[..32].copy_from_slice(r);
    sig[32..].copy_from_slice(s);
    let pubkey = [0u8; 33];
    serialize_payload(&pubkey, &sig, b"")
}

fn small_scalar(v: u8) -> [u8; 32] {
    let mut a = [0u8; 32];
    a[31] = v;
    a
}

/// The big-endian difference `ORDER - s`.
fn order_minus(s: &[u8; 32]) -> [u8; 32] {
    let mut out = [0u8; 32];
    let mut borrow = 0i32;
    for i in (0..32).rev() {
        let mut d = ORDER[i] as i32 - s[i] as i32 - borrow;
        if d < 0 {
            d += 256;
            borrow = 1;
        } else {
            borrow = 0;
        }
        out[i] = d as u8;
    }
    assert_eq!(borrow, 0);
    out
}

#[test]
fn test_zero_signatures_exact_header() {
    assert_eq!(verify_standalone(&[0u8, 0u8]), Ok(()));
    assert_eq!(
        verify_standalone(&[0u8, 0u8, 0u8]),
        Err(PrecompileError::InvalidInstructionDataSize)
    );
    assert_eq!(
        verify_standalone(&[0u8]),
        Err(PrecompileError::InvalidInstructionDataSize)
    );
}

#[test]
fn test_boundary_scalars_rejected() {
    let two = small_scalar(2);
    let bad_values = [small_scalar(0), small_scalar(1), ORDER_MINUS_ONE, ORDER];
    for bad in &bad_values {
        assert_eq!(
            verify_standalone(&payload_with_sig(bad, &two)),
            Err(PrecompileError::InvalidSignature)
        );
        assert_eq!(
            verify_standalone(&payload_with_sig(&two, bad)),
            Err(PrecompileError::InvalidSignature)
        );
    }
}

#[test]
fn test_in_range_scalars_reach_key_decode() {
    // r = s = 2 passes the scalar checks; the all-zero public key is not a
    // valid curve point, so the failure moves on to the key decode.
    let two = small_scalar(2);
    assert_eq!(
        verify_standalone(&payload_with_sig(&two, &two)),
        Err(PrecompileError::InvalidPublicKey)
    );
}

#[test]
fn test_high_s_rejected() {
    // The builder emits the canonical low-S form; substituting the equally
    // valid counterpart ORDER - s must be rejected, although it still
    // satisfies the ECDSA equations.
    let signing_key = p256::ecdsa::SigningKey::random(&mut rand::thread_rng());
    let secret = signing_key.to_bytes();
    let mut data = new_secp256r1_instruction(secret.as_slice(), b"hello").unwrap();

    let mut s = [0u8; 32];
    s.copy_from_slice(&data[81..113]);
    let high_s = order_minus(&s);
    data[81..113].copy_from_slice(&high_s);

    assert_eq!(
        verify_standalone(&data),
        Err(PrecompileError::InvalidSignature)
    );
}

#[test]
fn test_flip_any_byte_fails() {
    let signing_key = p256::ecdsa::SigningKey::random(&mut rand::thread_rng());
    let secret = signing_key.to_bytes();
    let data = new_secp256r1_instruction(secret.as_slice(), b"hello").unwrap();
    assert_eq!(verify_standalone(&data), Ok(()));

    for index in 0..data.len() {
        if index == 1 {
            // the reserved padding byte is never inspected
            continue;
        }
        let mut corrupted = data.clone();
        corrupted[index] = corrupted[index].wrapping_add(12);
        assert!(
            verify_standalone(&corrupted).is_err(),
            "flipping byte {} went unnoticed",
            index
        );
    }
}

#[test]
fn test_corrupt_signature_region() {
    // Sign, verify, then corrupt one byte inside the signature region
    // (bytes 49..113 of the builder's layout): the record still parses and
    // resolves, so the failure is the signature check itself.
    let signing_key = p256::ecdsa::SigningKey::random(&mut rand::thread_rng());
    let secret = signing_key.to_bytes();
    let mut data = new_secp256r1_instruction(secret.as_slice(), b"hello").unwrap();
    assert_eq!(verify_standalone(&data), Ok(()));

    data[60] = data[60].wrapping_add(12);
    assert_eq!(
        verify_standalone(&data),
        Err(PrecompileError::InvalidSignature)
    );
}

#[test]
fn test_message_boundary_below() {
    // One byte short of the end of the 100-byte sibling buffer: resolution
    // succeeds and the failure moves on to the all-zero scalars.
    let offsets = Secp256r1SignatureOffsets {
        message_data_offset: 98,
        message_data_size: 1,
        ..Secp256r1SignatureOffsets::default()
    };
    let mut instruction_data = vec![0u8; 16];
    instruction_data[0..2].copy_from_slice(&1u16.to_le_bytes());
    instruction_data[2..16].copy_from_slice(&offsets.to_bytes());
    let sibling = [0u8; 100];
    let datas: [&[u8]; 1] = [&sibling];
    assert_eq!(
        verify(&instruction_data, &datas, &FeatureSet::all_enabled()),
        Err(PrecompileError::InvalidSignature)
    );
}

#[test]
fn test_offsets_roundtrip() {
    let offsets = Secp256r1SignatureOffsets {
        signature_offset: 0x0102,
        signature_instruction_index: 0x0304,
        public_key_offset: 0x0506,
        public_key_instruction_index: 0x0708,
        message_data_offset: 0x090a,
        message_data_size: 0x0b0c,
        message_instruction_index: 0x0d0e,
    };
    let bytes = offsets.to_bytes();
    assert_eq!(
        bytes,
        vec![0x02, 0x01, 0x04, 0x03, 0x06, 0x05, 0x08, 0x07, 0x0a, 0x09, 0x0c, 0x0b, 0x0e, 0x0d]
    );
    assert_eq!(
        Secp256r1SignatureOffsets::try_from_bytes(&bytes),
        Ok(offsets)
    );
    assert_eq!(
        Secp256r1SignatureOffsets::try_from_bytes(&bytes[..13]),
        Err(PrecompileError::InvalidDataOffsets)
    );
}

#[test]
fn test_builder_layout() {
    let pubkey = [0xaau8; 33];
    let sig = [0xbbu8; 64];
    let msg = [1u8, 2, 3];
    let payload = serialize_payload(&pubkey, &sig, &msg);

    let mut expected = vec![
        1, 0, // one signature, reserved byte
        49, 0, 0xff, 0xff, // signature offset and sentinel index
        16, 0, 0xff, 0xff, // public key offset and sentinel index
        113, 0, 3, 0, 0xff, 0xff, // message offset, size, sentinel index
    ];
    expected.extend_from_slice(&pubkey);
    expected.extend_from_slice(&sig);
    expected.extend_from_slice(&msg);
    assert_eq!(payload, expected);
}

#[test]
fn test_builder_rejects_bad_inputs() {
    assert!(new_secp256r1_instruction(&[0u8; 32], b"x").is_none());
    assert!(new_secp256r1_instruction(&ORDER, b"x").is_none());
    assert!(new_secp256r1_instruction(&[1u8; 31], b"x").is_none());

    let one = small_scalar(1);
    let long_message = vec![0u8; 65536];
    assert!(new_secp256r1_instruction(&one, &long_message).is_none());

    let data = new_secp256r1_instruction(&one, b"x").unwrap();
    assert_eq!(verify_standalone(&data), Ok(()));
}
