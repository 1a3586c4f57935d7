//! The instruction builder: signs a message, and lays out a payload with
//! one self-referencing offsets record followed by the compressed public
//! key, the low-S compact signature, and the message.

use vstd::prelude::*;
use crate::big_endian::be_val;
use crate::curve::{point_decodes, sig_verifies, sign_with_pubkey};
use crate::offsets::{spec_encode_offsets, Secp256r1SignatureOffsets};
use crate::scalars::p256_order;

verus! {

/// The offsets record the builder writes: all three indices are the
/// self-referencing sentinel, and the data area holds the public key at
/// byte 16, the signature at byte 49, and the message at byte 113.
pub open spec fn spec_build_offsets(msg_len: int) -> Secp256r1SignatureOffsets {
    Secp256r1SignatureOffsets {
        signature_offset: 49,
        signature_instruction_index: 0xFFFF,
        public_key_offset: 16,
        public_key_instruction_index: 0xFFFF,
        message_data_offset: 113,
        message_data_size: msg_len as u16,
        message_instruction_index: 0xFFFF,
    }
}

/// The payload the builder emits: count 1, the reserved byte, one offsets
/// record, then public key, signature and message back to back.
pub open spec fn spec_build_payload(
    pubkey: Seq<u8>,
    signature: Seq<u8>,
    message: Seq<u8>,
) -> Seq<u8> {
    seq![1u8, 0u8] + spec_encode_offsets(spec_build_offsets(message.len() as int)) + pubkey
        + signature + message
}

fn extend_from_slice(v: &mut Vec<u8>, s: &[u8])
    requires
        old(v)@.len() + s@.len() <= usize::MAX,
    ensures
        final(v)@ == old(v)@ + s@,
{
    let mut i: usize = 0;
    while i < s.len()
        invariant
            0 <= i <= s@.len(),
            old(v)@.len() + s@.len() <= usize::MAX,
            v@ == old(v)@ + s@.take(i as int),
        decreases s@.len() - i,
    {
        v.push(*vstd::slice::slice_index_get(s, i));
        i += 1;
        proof {
            assert(v@ =~= old(v)@ + s@.take(i as int));
        }
    }
    proof {
        assert(v@ =~= old(v)@ + s@);
    }
}

/// Serializes the single-signature payload from already-encoded parts:
/// a 33-byte compressed public key, a 64-byte compact signature, and the
/// message, in the builder's fixed layout.
pub fn serialize_payload(pubkey: &[u8], signature: &[u8], message: &[u8]) -> (r: Vec<u8>)
    requires
        pubkey@.len() == 33,
        signature@.len() == 64,
        message@.len() <= u16::MAX,
    ensures
        r@ == spec_build_payload(pubkey@, signature@, message@),
{
    let mut v: Vec<u8> = Vec::new();
    v.push(1u8);
    v.push(0u8);
    let offsets = Secp256r1SignatureOffsets {
        signature_offset: 49,
        signature_instruction_index: u16::MAX,
        public_key_offset: 16,
        public_key_instruction_index: u16::MAX,
        message_data_offset: 113,
        message_data_size: message.len() as u16,
        message_instruction_index: u16::MAX,
    };
    let record = offsets.to_bytes();
    extend_from_slice(&mut v, record.as_slice());
    extend_from_slice(&mut v, pubkey);
    extend_from_slice(&mut v, signature);
    extend_from_slice(&mut v, message);
    proof {
        assert(v@ =~= spec_build_payload(pubkey@, signature@, message@));
    }
    v
}

/// Signs `message` with the 32-byte big-endian secret scalar `signer` and
/// emits the single-signature instruction payload for it. Returns `None`
/// exactly when the secret is not a valid non-zero scalar below the curve
/// order, the secret is not 32 bytes, or the message does not fit the
/// 16-bit size field.
pub fn new_secp256r1_instruction(signer: &[u8], message: &[u8]) -> (r: Option<Vec<u8>>)
    ensures
        (r is Some) == (signer@.len() == 32 && 1 <= be_val(signer@) < p256_order()
            && message@.len() <= u16::MAX),
        r matches Some(payload) ==> exists|pk: Seq<u8>, sig: Seq<u8>|
            {
                &&& pk.len() == 33
                &&& sig.len() == 64
                &&& point_decodes(pk)
                &&& sig_verifies(pk, message@, sig)
                &&& 1 <= be_val(sig.subrange(0, 32)) < p256_order()
                &&& 1 <= be_val(sig.subrange(32, 64)) <= p256_order() / 2
                &&& payload@ == spec_build_payload(pk, sig, message@)
            },
{
    if signer.len() != 32 {
        return None;
    }
    if message.len() > u16::MAX as usize {
        return None;
    }
    let (pubkey, signature) = match sign_with_pubkey(signer, message) {
        Some(ps) => ps,
        None => {
            return None;
        },
    };
    let payload = serialize_payload(pubkey.as_slice(), signature.as_slice(), message);
    proof {
        let pk = pubkey@;
        let sig = signature@;
        assert(payload@ == spec_build_payload(pk, sig, message@));
    }
    Some(payload)
}

} // verus!
