//! A precompiled verification routine for ECDSA signatures over the NIST
//! P-256 (secp256r1) curve, as run natively by a blockchain runtime: a
//! count-prefixed wire format packs signature-verification requests into one
//! opaque instruction payload, each request locating its signature, public
//! key and message bytes inside the payload itself or inside a sibling
//! instruction's data. The verifier bounds both signature scalars to the
//! open interval (1, order - 1), enforces the canonical low-S form, and
//! only then asks the curve library; every input is untrusted bytes that
//! must be rejected, never misread.

pub mod big_endian;
pub mod builder;
pub mod curve;
pub mod engine;
pub mod laws;
pub mod offsets;
pub mod resolve;
pub mod scalars;

pub use builder::new_secp256r1_instruction;
pub use engine::verify;
pub use offsets::Secp256r1SignatureOffsets;
pub use resolve::get_data_slice;

use vstd::prelude::*;

verus! {

/// Number of bytes in a compressed SEC1 public key encoding.
pub const COMPRESSED_PUBKEY_SERIALIZED_SIZE: usize = 33;
/// Number of bytes in a compact (r || s) signature encoding.
pub const SIGNATURE_SERIALIZED_SIZE: usize = 64;
/// Number of bytes in one serialized signature-offsets record.
pub const SIGNATURE_OFFSETS_SERIALIZED_SIZE: usize = 14;
/// Byte position where the offsets records begin (after count and padding).
pub const SIGNATURE_OFFSETS_START: usize = 2;
/// Byte position where the single-signature builder places its data area.
pub const DATA_START: usize = 16;

/// Feature flags handed in by the enclosing runtime; none currently alter
/// the verification behaviour.
pub struct FeatureSet {}

impl FeatureSet {
    /// The flag set with every feature turned on.
    pub fn all_enabled() -> FeatureSet {
        FeatureSet {  }
    }
}

/// Errors reported by the precompile verification routine.
#[derive(Debug, Clone, Copy, PartialEq, Eq)]
pub enum PrecompileError {
    InvalidInstructionDataSize,
    InvalidDataOffsets,
    InvalidSignature,
    InvalidPublicKey,
}

} // verus!
