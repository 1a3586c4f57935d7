//! The fixed 14-byte signature-offsets record: where one signature's three
//! data pieces (signature, public key, message) live, and in which
//! instruction's data. All fields are little-endian `u16` with no padding.

use vstd::prelude::*;
use crate::PrecompileError;

verus! {

/// Locates one signature's data pieces inside instruction data.
#[derive(Default, Debug, Copy, Clone, Eq, PartialEq)]
pub struct Secp256r1SignatureOffsets {
    /// Offset to the 64-byte compact signature.
    pub signature_offset: u16,
    /// Instruction index holding the signature bytes.
    pub signature_instruction_index: u16,
    /// Offset to the 33-byte compressed public key.
    pub public_key_offset: u16,
    /// Instruction index holding the public key bytes.
    pub public_key_instruction_index: u16,
    /// Offset to the start of the message data.
    pub message_data_offset: u16,
    /// Size of the message data in bytes.
    pub message_data_size: u16,
    /// Instruction index holding the message bytes.
    pub message_instruction_index: u16,
}

/// The `u16` denoted by two bytes in little-endian order.
pub open spec fn le16(lo: u8, hi: u8) -> u16 {
    (lo + hi * 256) as u16
}

/// Low byte of the little-endian encoding of `x`.
pub open spec fn lo16(x: u16) -> u8 {
    (x % 256) as u8
}

/// High byte of the little-endian encoding of `x`.
pub open spec fn hi16(x: u16) -> u8 {
    (x / 256) as u8
}

/// The record denoted by a 14-byte slice, fields in wire order.
pub open spec fn spec_decode_offsets(b: Seq<u8>) -> Secp256r1SignatureOffsets {
    Secp256r1SignatureOffsets {
        signature_offset: le16(b[0], b[1]),
        signature_instruction_index: le16(b[2], b[3]),
        public_key_offset: le16(b[4], b[5]),
        public_key_instruction_index: le16(b[6], b[7]),
        message_data_offset: le16(b[8], b[9]),
        message_data_size: le16(b[10], b[11]),
        message_instruction_index: le16(b[12], b[13]),
    }
}

/// The 14-byte wire form of a record, fields in order, little-endian.
pub open spec fn spec_encode_offsets(o: Secp256r1SignatureOffsets) -> Seq<u8> {
    seq![
        lo16(o.signature_offset), hi16(o.signature_offset),
        lo16(o.signature_instruction_index), hi16(o.signature_instruction_index),
        lo16(o.public_key_offset), hi16(o.public_key_offset),
        lo16(o.public_key_instruction_index), hi16(o.public_key_instruction_index),
        lo16(o.message_data_offset), hi16(o.message_data_offset),
        lo16(o.message_data_size), hi16(o.message_data_size),
        lo16(o.message_instruction_index), hi16(o.message_instruction_index),
    ]
}

/// Decoding the encoding gives the record back: the wire form loses nothing.
pub proof fn lemma_offsets_roundtrip(o: Secp256r1SignatureOffsets)
    ensures
        spec_decode_offsets(spec_encode_offsets(o)) == o,
{
    lemma_le16_roundtrip(o.signature_offset);
    lemma_le16_roundtrip(o.signature_instruction_index);
    lemma_le16_roundtrip(o.public_key_offset);
    lemma_le16_roundtrip(o.public_key_instruction_index);
    lemma_le16_roundtrip(o.message_data_offset);
    lemma_le16_roundtrip(o.message_data_size);
    lemma_le16_roundtrip(o.message_instruction_index);
}

/// Splitting a `u16` into its two little-endian bytes and reading them back
/// is the identity.
pub proof fn lemma_le16_roundtrip(x: u16)
    ensures
        le16(lo16(x), hi16(x)) == x,
{
    assert(x % 256 + (x / 256) * 256 == x) by (nonlinear_arith);
}

/// Reading two bytes as a `u16` and splitting it again gives the bytes
/// back.
pub proof fn lemma_le16_bytes(lo: u8, hi: u8)
    ensures
        lo16(le16(lo, hi)) == lo,
        hi16(le16(lo, hi)) == hi,
{
    assert((lo + hi * 256) % 256 == lo && (lo + hi * 256) / 256 == hi) by (nonlinear_arith)
        requires 0 <= lo < 256, 0 <= hi < 256;
}

/// Encoding the decoding of a 14-byte slice gives the bytes back: the wire
/// form and the record carry exactly the same information.
pub proof fn lemma_offsets_roundtrip_bytes(b: Seq<u8>)
    requires
        b.len() == 14,
    ensures
        spec_encode_offsets(spec_decode_offsets(b)) == b,
{
    lemma_le16_bytes(b[0], b[1]);
    lemma_le16_bytes(b[2], b[3]);
    lemma_le16_bytes(b[4], b[5]);
    lemma_le16_bytes(b[6], b[7]);
    lemma_le16_bytes(b[8], b[9]);
    lemma_le16_bytes(b[10], b[11]);
    lemma_le16_bytes(b[12], b[13]);
    assert(spec_encode_offsets(spec_decode_offsets(b)) =~= b);
}

/// Reads the little-endian `u16` at position `i`.
pub fn read_le16(b: &[u8], i: usize) -> (r: u16)
    requires
        i + 2 <= b@.len(),
        b@.len() <= usize::MAX,
    ensures
        r == le16(b@[i as int], b@[i as int + 1]),
{
    let lo = *vstd::slice::slice_index_get(b, i);
    let hi = *vstd::slice::slice_index_get(b, i + 1);
    lo as u16 + (hi as u16) * 256
}

fn push_le16(v: &mut Vec<u8>, x: u16)
    ensures
        final(v)@ == old(v)@ + seq![lo16(x), hi16(x)],
{
    v.push((x % 256) as u8);
    v.push((x / 256) as u8);
    proof {
        assert(v@ =~= old(v)@ + seq![lo16(x), hi16(x)]);
    }
}

impl Secp256r1SignatureOffsets {
    /// Deserializes a record from a slice that must be exactly 14 bytes.
    pub fn try_from_bytes(b: &[u8]) -> (r: Result<Self, PrecompileError>)
        ensures
            b@.len() == 14 ==> r == Ok::<Self, PrecompileError>(spec_decode_offsets(b@)),
            b@.len() != 14 ==> r == Err::<Self, PrecompileError>(
                PrecompileError::InvalidDataOffsets,
            ),
    {
        if b.len() != 14 {
            return Err(PrecompileError::InvalidDataOffsets);
        }
        Ok(
            Secp256r1SignatureOffsets {
                signature_offset: read_le16(b, 0),
                signature_instruction_index: read_le16(b, 2),
                public_key_offset: read_le16(b, 4),
                public_key_instruction_index: read_le16(b, 6),
                message_data_offset: read_le16(b, 8),
                message_data_size: read_le16(b, 10),
                message_instruction_index: read_le16(b, 12),
            },
        )
    }

    /// Serializes the record to its 14-byte wire form.
    pub fn to_bytes(&self) -> (r: Vec<u8>)
        ensures
            r@ == spec_encode_offsets(*self),
    {
        let mut v: Vec<u8> = Vec::new();
        push_le16(&mut v, self.signature_offset);
        push_le16(&mut v, self.signature_instruction_index);
        push_le16(&mut v, self.public_key_offset);
        push_le16(&mut v, self.public_key_instruction_index);
        push_le16(&mut v, self.message_data_offset);
        push_le16(&mut v, self.message_data_size);
        push_le16(&mut v, self.message_instruction_index);
        proof {
            assert(v@ =~= spec_encode_offsets(*self));
        }
        v
    }
}

} // verus!
