//! The verification engine: parses the count-prefixed list of offsets
//! records, resolves each record's three byte ranges, bounds the signature
//! scalars against the curve order, enforces the low-S rule, and hands the
//! surviving triple to the curve library.

use vstd::prelude::*;
use crate::{FeatureSet, PrecompileError};
use crate::curve::{curve_verify, point_decodes, sig_verifies, CurveCheck};
use crate::offsets::{spec_decode_offsets, Secp256r1SignatureOffsets};
use crate::resolve::{datas_view, get_data_slice, spec_resolve};
use crate::scalars::{is_low_s, low_s_ok, scalar_in_range, scalar_range_ok};
use crate::{SIGNATURE_OFFSETS_SERIALIZED_SIZE, SIGNATURE_OFFSETS_START};
use crate::{COMPRESSED_PUBKEY_SERIALIZED_SIZE, SIGNATURE_SERIALIZED_SIZE};

verus! {

/// The verdict on one offsets record: resolve the three byte ranges, bound
/// both scalars to the open interval (1, order - 1), enforce low-S, then
/// ask the curve. The first failing step decides the error.
pub open spec fn spec_verify_one(
    data: Seq<u8>,
    datas: Seq<Seq<u8>>,
    off: Secp256r1SignatureOffsets,
) -> Result<(), PrecompileError> {
    match spec_resolve(data, datas, off.signature_instruction_index, off.signature_offset, 64) {
        Option::None => Err(PrecompileError::InvalidDataOffsets),
        Option::Some(signature) => match spec_resolve(
            data,
            datas,
            off.public_key_instruction_index,
            off.public_key_offset,
            33,
        ) {
            Option::None => Err(PrecompileError::InvalidDataOffsets),
            Option::Some(pubkey) => match spec_resolve(
                data,
                datas,
                off.message_instruction_index,
                off.message_data_offset,
                off.message_data_size as nat,
            ) {
                Option::None => Err(PrecompileError::InvalidDataOffsets),
                Option::Some(message) => {
                    let r = signature.subrange(0, 32);
                    let s = signature.subrange(32, 64);
                    if !(scalar_in_range(r) && scalar_in_range(s)) {
                        Err(PrecompileError::InvalidSignature)
                    } else if !is_low_s(s) {
                        Err(PrecompileError::InvalidSignature)
                    } else if !point_decodes(pubkey) {
                        Err(PrecompileError::InvalidPublicKey)
                    } else if !sig_verifies(pubkey, message, signature) {
                        Err(PrecompileError::InvalidSignature)
                    } else {
                        Ok(())
                    }
                },
            },
        },
    }
}

/// The verdict on records `i..n`, stopping at the first failure.
pub open spec fn spec_verify_from(
    data: Seq<u8>,
    datas: Seq<Seq<u8>>,
    i: int,
    n: int,
) -> Result<(), PrecompileError>
    decreases n - i,
{
    if i >= n {
        Ok(())
    } else {
        let off = spec_decode_offsets(data.subrange(2 + 14 * i, 16 + 14 * i));
        match spec_verify_one(data, datas, off) {
            Result::Ok(()) => spec_verify_from(data, datas, i + 1, n),
            Result::Err(e) => Err(e),
        }
    }
}

/// The verdict on a whole instruction payload against the sibling
/// instruction datas: size checks on the header, then every declared
/// record in order.
pub open spec fn spec_verify(data: Seq<u8>, datas: Seq<Seq<u8>>) -> Result<(), PrecompileError> {
    if data.len() < 2 {
        Err(PrecompileError::InvalidInstructionDataSize)
    } else if data[0] == 0 && data.len() > 2 {
        Err(PrecompileError::InvalidInstructionDataSize)
    } else if data.len() < 2 + 14 * (data[0] as int) {
        Err(PrecompileError::InvalidInstructionDataSize)
    } else {
        spec_verify_from(data, datas, 0, data[0] as int)
    }
}

/// Verifies every signature declared by the instruction payload `data`,
/// reading signature, public key and message bytes from `data` itself or
/// from the sibling instruction datas as each offsets record directs.
/// Returns the verdict of the first failing step, or success when all
/// records pass; a payload declaring zero signatures must be exactly the
/// two header bytes.
pub fn verify(
    data: &[u8],
    instruction_datas: &[&[u8]],
    _feature_set: &FeatureSet,
) -> (res: Result<(), PrecompileError>)
    ensures
        res == spec_verify(data@, datas_view(instruction_datas@)),
{
    let ghost gdatas = datas_view(instruction_datas@);
    if data.len() < SIGNATURE_OFFSETS_START {
        return Err(PrecompileError::InvalidInstructionDataSize);
    }
    let num_signatures = *vstd::slice::slice_index_get(data, 0) as usize;
    if num_signatures == 0 && data.len() > SIGNATURE_OFFSETS_START {
        return Err(PrecompileError::InvalidInstructionDataSize);
    }
    let expected_data_size = num_signatures * SIGNATURE_OFFSETS_SERIALIZED_SIZE
        + SIGNATURE_OFFSETS_START;
    if data.len() < expected_data_size {
        return Err(PrecompileError::InvalidInstructionDataSize);
    }
    let mut i: usize = 0;
    while i < num_signatures
        invariant
            0 <= i <= num_signatures,
            num_signatures == data@[0] as int,
            num_signatures <= 255,
            data@.len() >= 2 + 14 * num_signatures,
            data@.len() <= usize::MAX,
            gdatas == datas_view(instruction_datas@),
            spec_verify(data@, gdatas) == spec_verify_from(
                data@,
                gdatas,
                i as int,
                num_signatures as int,
            ),
        decreases num_signatures - i,
    {
        let start = i * SIGNATURE_OFFSETS_SERIALIZED_SIZE + SIGNATURE_OFFSETS_START;
        let end = start + SIGNATURE_OFFSETS_SERIALIZED_SIZE;
        let record = vstd::slice::slice_subrange(data, start, end);
        let offsets = match Secp256r1SignatureOffsets::try_from_bytes(record) {
            Ok(o) => o,
            Err(_) => {
                return Err(PrecompileError::InvalidDataOffsets);
            },
        };
        proof {
            assert(record@ == data@.subrange(2 + 14 * (i as int), 16 + 14 * (i as int)));
        }

        let signature = match get_data_slice(
            data,
            instruction_datas,
            offsets.signature_instruction_index,
            offsets.signature_offset,
            SIGNATURE_SERIALIZED_SIZE,
        ) {
            Ok(s) => s,
            Err(e) => {
                return Err(e);
            },
        };

        let pubkey = match get_data_slice(
            data,
            instruction_datas,
            offsets.public_key_instruction_index,
            offsets.public_key_offset,
            COMPRESSED_PUBKEY_SERIALIZED_SIZE,
        ) {
            Ok(s) => s,
            Err(e) => {
                return Err(e);
            },
        };

        let message = match get_data_slice(
            data,
            instruction_datas,
            offsets.message_instruction_index,
            offsets.message_data_offset,
            offsets.message_data_size as usize,
        ) {
            Ok(s) => s,
            Err(e) => {
                return Err(e);
            },
        };

        let r_bytes = vstd::slice::slice_subrange(signature, 0, 32);
        let s_bytes = vstd::slice::slice_subrange(signature, 32, 64);
        let r_ok = scalar_range_ok(r_bytes);
        let s_ok = scalar_range_ok(s_bytes);
        if !(r_ok && s_ok) {
            return Err(PrecompileError::InvalidSignature);
        }
        if !low_s_ok(s_bytes) {
            return Err(PrecompileError::InvalidSignature);
        }
        match curve_verify(pubkey, message, signature) {
            CurveCheck::BadPublicKey => {
                return Err(PrecompileError::InvalidPublicKey);
            },
            CurveCheck::SignatureInvalid => {
                return Err(PrecompileError::InvalidSignature);
            },
            CurveCheck::SignatureValid => {},
        }
        i += 1;
    }
    Ok(())
}

} // verus!
