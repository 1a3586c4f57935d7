use secp256r1_precompile::engine::verify;
use secp256r1_precompile::offsets::Secp256r1SignatureOffsets;
use secp256r1_precompile::{
    FeatureSet, PrecompileError, DATA_START, SIGNATURE_OFFSETS_SERIALIZED_SIZE,
    SIGNATURE_OFFSETS_START,
};

fn test_case(
    num_signatures: u16,
    offsets: &Secp256r1SignatureOffsets,
) -> Result<(), PrecompileError> {
    assert_eq!(offsets.to_bytes().len(), SIGNATURE_OFFSETS_SERIALIZED_SIZE);

    let mut instruction_data = vec![0u8; DATA_START];
    instruction_data[0..SIGNATURE_OFFSETS_START].copy_from_slice(&num_signatures.to_le_bytes());
    instruction_data[SIGNATURE_OFFSETS_START..DATA_START].copy_from_slice(&offsets.to_bytes());
    let sibling = [0u8; 100];
    let datas: [&[u8]; 1] = [&sibling];
    verify(&instruction_data, &datas, &FeatureSet::all_enabled())
}

#[test]
fn test_invalid_offsets() {
    let mut instruction_data = vec![0u8; DATA_START];
    let offsets = Secp256r1SignatureOffsets::default();
    instruction_data[0..SIGNATURE_OFFSETS_START].copy_from_slice(&1u16.to_le_bytes());
    instruction_data[SIGNATURE_OFFSETS_START..DATA_START].copy_from_slice(&offsets.to_bytes());
    instruction_data.truncate(instruction_data.len() - 1);

    let sibling = [0u8; 100];
    let datas: [&[u8]; 1] = [&sibling];
    assert_eq!(
        verify(&instruction_data, &datas, &FeatureSet::all_enabled()),
        Err(PrecompileError::InvalidInstructionDataSize)
    );

    let offsets = Secp256r1SignatureOffsets {
        signature_instruction_index: 1,
        ..Secp256r1SignatureOffsets::default()
    };
    assert_eq!(
        test_case(1, &offsets),
        Err(PrecompileError::InvalidDataOffsets)
    );

    let offsets = Secp256r1SignatureOffsets {
        message_instruction_index: 1,
        ..Secp256r1SignatureOffsets::default()
    };
    assert_eq!(
        test_case(1, &offsets),
        Err(PrecompileError::InvalidDataOffsets)
    );

    let offsets = Secp256r1SignatureOffsets {
        public_key_instruction_index: 1,
        ..Secp256r1SignatureOffsets::default()
    };
    assert_eq!(
        test_case(1, &offsets),
        Err(PrecompileError::InvalidDataOffsets)
    );
}

#[test]
fn test_message_data_offsets() {
    let offsets = Secp256r1SignatureOffsets {
        message_data_offset: 99,
        message_data_size: 1,
        ..Secp256r1SignatureOffsets::default()
    };
    assert_eq!(
        test_case(1, &offsets),
        Err(PrecompileError::InvalidSignature)
    );

    let offsets = Secp256r1SignatureOffsets {
        message_data_offset: 100,
        message_data_size: 1,
        ..Secp256r1SignatureOffsets::default()
    };
    assert_eq!(
        test_case(1, &offsets),
        Err(PrecompileError::InvalidDataOffsets)
    );

    let offsets = Secp256r1SignatureOffsets {
        message_data_offset: 100,
        message_data_size: 1000,
        ..Secp256r1SignatureOffsets::default()
    };
    assert_eq!(
        test_case(1, &offsets),
        Err(PrecompileError::InvalidDataOffsets)
    );

    let offsets = Secp256r1SignatureOffsets {
        message_data_offset: u16::MAX,
        message_data_size: u16::MAX,
        ..Secp256r1SignatureOffsets::default()
    };
    assert_eq!(
        test_case(1, &offsets),
        Err(PrecompileError::InvalidDataOffsets)
    );
}

#[test]
fn test_pubkey_offset() {
    let offsets = Secp256r1SignatureOffsets {
        public_key_offset: u16::MAX,
        ..Secp256r1SignatureOffsets::default()
    };
    assert_eq!(
        test_case(1, &offsets),
        Err(PrecompileError::InvalidDataOffsets)
    );

    let offsets = Secp256r1SignatureOffsets {
        public_key_offset: 100 - 33 + 1,
        ..Secp256r1SignatureOffsets::default()
    };
    assert_eq!(
        test_case(1, &offsets),
        Err(PrecompileError::InvalidDataOffsets)
    );
}

#[test]
fn test_signature_offset() {
    let offsets = Secp256r1SignatureOffsets {
        signature_offset: u16::MAX,
        ..Secp256r1SignatureOffsets::default()
    };
    assert_eq!(
        test_case(1, &offsets),
        Err(PrecompileError::InvalidDataOffsets)
    );

    let offsets = Secp256r1SignatureOffsets {
        signature_offset: 100 - 64 + 1,
        ..Secp256r1SignatureOffsets::default()
    };
    assert_eq!(
        test_case(1, &offsets),
        Err(PrecompileError::InvalidDataOffsets)
    );
}

#[test]
fn test_secp256r1() {
    let signing_key = p256::ecdsa::SigningKey::random(&mut rand::thread_rng());
    let secret = signing_key.to_bytes();
    let message_arr = b"hello";
    let mut instruction_data =
        secp256r1_precompile::builder::new_secp256r1_instruction(secret.as_slice(), message_arr)
            .unwrap();
    let feature_set = FeatureSet::all_enabled();

    let empty: [&[u8]; 0] = [];
    assert!(verify(&instruction_data, &empty, &feature_set).is_ok());

    let index = loop {
        let index = rand::Rng::gen_range(&mut rand::thread_rng(), 0..instruction_data.len());
        // byte 1 is not used, so this would not cause the verify to fail
        if index != 1 {
            break index;
        }
    };

    instruction_data[index] = instruction_data[index].wrapping_add(12);
    assert!(verify(&instruction_data, &empty, &feature_set).is_err());
}
