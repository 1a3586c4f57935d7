//! Properties that tie the builder, the resolver and the engine together,
//! each proved against the specification functions the contracts use.

use vstd::prelude::*;
use crate::big_endian::be_val;
use crate::builder::{spec_build_offsets, spec_build_payload};
use crate::curve::{point_decodes, sig_verifies};
use crate::engine::{spec_verify, spec_verify_from, spec_verify_one};
use crate::offsets::{lemma_offsets_roundtrip, spec_decode_offsets, spec_encode_offsets};
use crate::resolve::spec_resolve;
use crate::scalars::{is_low_s, p256_order, scalar_in_range};
use crate::PrecompileError;

verus! {

/// A payload declaring zero signatures verifies exactly when it is nothing
/// but the two header bytes; any trailing byte is a size error.
pub proof fn lemma_zero_signatures(data: Seq<u8>, datas: Seq<Seq<u8>>)
    requires
        data.len() >= 2,
        data[0] == 0,
    ensures
        data.len() == 2 ==> spec_verify(data, datas) == Ok::<(), PrecompileError>(()),
        data.len() > 2 ==> spec_verify(data, datas) == Err::<(), PrecompileError>(
            PrecompileError::InvalidInstructionDataSize,
        ),
{
}

/// With one declared signature, a record whose signature, public key or
/// message instruction index is neither the sentinel nor within the sibling
/// list is rejected as `InvalidDataOffsets`.
pub proof fn lemma_out_of_range_index_rejected(data: Seq<u8>, datas: Seq<Seq<u8>>)
    requires
        data.len() >= 16,
        data[0] == 1,
        ({
            let off = spec_decode_offsets(data.subrange(2, 16));
            ||| (off.signature_instruction_index != 0xFFFF
                && off.signature_instruction_index >= datas.len())
            ||| (off.public_key_instruction_index != 0xFFFF
                && off.public_key_instruction_index >= datas.len())
            ||| (off.message_instruction_index != 0xFFFF
                && off.message_instruction_index >= datas.len())
        }),
    ensures
        spec_verify(data, datas) == Err::<(), PrecompileError>(PrecompileError::InvalidDataOffsets),
{
    let off = spec_decode_offsets(data.subrange(2, 16));
    assert(spec_verify_one(data, datas, off) == Err::<(), PrecompileError>(
        PrecompileError::InvalidDataOffsets,
    ));
    assert(spec_verify_from(data, datas, 0, 1) == spec_verify_one(data, datas, off));
}

/// With a resolvable signature and public key, a message range reaching
/// past the end of its source buffer is rejected as `InvalidDataOffsets`.
pub proof fn lemma_message_past_end_rejected(data: Seq<u8>, datas: Seq<Seq<u8>>)
    requires
        data.len() >= 16,
        data[0] == 1,
        ({
            let off = spec_decode_offsets(data.subrange(2, 16));
            &&& spec_resolve(
                data,
                datas,
                off.signature_instruction_index,
                off.signature_offset,
                64,
            ) is Some
            &&& spec_resolve(
                data,
                datas,
                off.public_key_instruction_index,
                off.public_key_offset,
                33,
            ) is Some
            &&& (off.message_instruction_index == 0xFFFF || off.message_instruction_index
                < datas.len())
            &&& {
                let src = if off.message_instruction_index == 0xFFFF {
                    data
                } else {
                    datas[off.message_instruction_index as int]
                };
                off.message_data_offset + off.message_data_size > src.len()
            }
        }),
    ensures
        spec_verify(data, datas) == Err::<(), PrecompileError>(PrecompileError::InvalidDataOffsets),
{
    let off = spec_decode_offsets(data.subrange(2, 16));
    assert(spec_verify_one(data, datas, off) == Err::<(), PrecompileError>(
        PrecompileError::InvalidDataOffsets,
    ));
    assert(spec_verify_from(data, datas, 0, 1) == spec_verify_one(data, datas, off));
}

/// A record whose three ranges resolve but whose `s` scalar exceeds half
/// the curve order is rejected as `InvalidSignature`, whether or not the
/// triple would verify mathematically.
pub proof fn lemma_high_s_rejected(data: Seq<u8>, datas: Seq<Seq<u8>>)
    requires
        data.len() >= 16,
        data[0] == 1,
        ({
            let off = spec_decode_offsets(data.subrange(2, 16));
            &&& spec_resolve(
                data,
                datas,
                off.signature_instruction_index,
                off.signature_offset,
                64,
            ) matches Some(sig) && be_val(sig.subrange(32, 64)) > p256_order() / 2
            &&& spec_resolve(
                data,
                datas,
                off.public_key_instruction_index,
                off.public_key_offset,
                33,
            ) is Some
            &&& spec_resolve(
                data,
                datas,
                off.message_instruction_index,
                off.message_data_offset,
                off.message_data_size as nat,
            ) is Some
        }),
    ensures
        spec_verify(data, datas) == Err::<(), PrecompileError>(PrecompileError::InvalidSignature),
{
    let off = spec_decode_offsets(data.subrange(2, 16));
    assert(spec_verify_one(data, datas, off) == Err::<(), PrecompileError>(
        PrecompileError::InvalidSignature,
    ));
    assert(spec_verify_from(data, datas, 0, 1) == spec_verify_one(data, datas, off));
}

/// A record whose three ranges resolve but whose `r` or `s` scalar equals
/// 0, 1, the order minus one, or the order itself fails the range check
/// and is rejected as `InvalidSignature`.
pub proof fn lemma_boundary_scalars_rejected(data: Seq<u8>, datas: Seq<Seq<u8>>)
    requires
        data.len() >= 16,
        data[0] == 1,
        ({
            let off = spec_decode_offsets(data.subrange(2, 16));
            &&& spec_resolve(
                data,
                datas,
                off.signature_instruction_index,
                off.signature_offset,
                64,
            ) matches Some(sig) && {
                let r = be_val(sig.subrange(0, 32));
                let s = be_val(sig.subrange(32, 64));
                ||| r == 0
                ||| r == 1
                ||| r == p256_order() - 1
                ||| r == p256_order()
                ||| s == 0
                ||| s == 1
                ||| s == p256_order() - 1
                ||| s == p256_order()
            }
            &&& spec_resolve(
                data,
                datas,
                off.public_key_instruction_index,
                off.public_key_offset,
                33,
            ) is Some
            &&& spec_resolve(
                data,
                datas,
                off.message_instruction_index,
                off.message_data_offset,
                off.message_data_size as nat,
            ) is Some
        }),
    ensures
        spec_verify(data, datas) == Err::<(), PrecompileError>(PrecompileError::InvalidSignature),
{
    let off = spec_decode_offsets(data.subrange(2, 16));
    assert(spec_verify_one(data, datas, off) == Err::<(), PrecompileError>(
        PrecompileError::InvalidSignature,
    ));
    assert(spec_verify_from(data, datas, 0, 1) == spec_verify_one(data, datas, off));
}

/// A single-signature payload in the builder's layout verifies: the engine
/// resolves exactly the embedded public key, signature and message, and
/// with both scalars strictly inside the checked range, the signature in
/// canonical low-S form, a decodable key, and a triple the curve accepts,
/// the verdict is success. (The builder itself guarantees all but the two
/// strict range bounds, which its signatures can only miss for scalars at
/// the very edge of the order.)
pub proof fn lemma_built_payload_verifies(
    pk: Seq<u8>,
    sig: Seq<u8>,
    msg: Seq<u8>,
    datas: Seq<Seq<u8>>,
)
    requires
        pk.len() == 33,
        sig.len() == 64,
        msg.len() <= u16::MAX,
        scalar_in_range(sig.subrange(0, 32)),
        scalar_in_range(sig.subrange(32, 64)),
        is_low_s(sig.subrange(32, 64)),
        point_decodes(pk),
        sig_verifies(pk, msg, sig),
    ensures
        spec_verify(spec_build_payload(pk, sig, msg), datas) == Ok::<(), PrecompileError>(()),
{
    let data = spec_build_payload(pk, sig, msg);
    let off0 = spec_build_offsets(msg.len() as int);
    assert(data.len() == 113 + msg.len());
    assert(data[0] == 1);
    assert(data.subrange(2, 16) =~= spec_encode_offsets(off0));
    lemma_offsets_roundtrip(off0);
    assert(spec_decode_offsets(data.subrange(2, 16)) == off0);
    assert(data.subrange(16, 49) =~= pk);
    assert(data.subrange(49, 113) =~= sig);
    assert(data.subrange(113, 113 + msg.len() as int) =~= msg);
    assert(spec_resolve(data, datas, 0xFFFF, 49, 64) == Some(sig));
    assert(spec_resolve(data, datas, 0xFFFF, 16, 33) == Some(pk));
    assert(spec_resolve(data, datas, 0xFFFF, 113, msg.len()) == Some(msg));
    assert(spec_verify_one(data, datas, off0) == Ok::<(), PrecompileError>(()));
    assert(spec_verify_from(data, datas, 1, 1) == Ok::<(), PrecompileError>(()));
    assert(spec_verify_from(data, datas, 0, 1) == Ok::<(), PrecompileError>(()));
}

} // verus!
