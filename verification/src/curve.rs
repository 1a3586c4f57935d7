//! The external elliptic-curve collaborator: decoding compressed P-256
//! points, the ECDSA-with-SHA-256 verification primitive, and signing for
//! the instruction builder. Everything here is a trusted boundary around the
//! p256 / ecdsa crates; the verification algorithm itself never looks inside
//! these calls.

use vstd::prelude::*;
use crate::big_endian::be_val;
use crate::scalars::p256_order;

verus! {

/// Whether the bytes are a SEC1 encoding of a valid P-256 curve point.
/// Named for `ecdsa::VerifyingKey::<NistP256>::from_sec1_bytes`, whose
/// success is a function of the bytes alone.
pub uninterp spec fn point_decodes(pubkey: Seq<u8>) -> bool;

/// Whether the 64-byte compact signature parses into two scalars in
/// `1..order` and ECDSA over P-256 with SHA-256 accepts it for this public
/// key and message. Named for `ecdsa::Signature::<NistP256>::from_slice`
/// followed by `signature::Verifier::verify` on a `VerifyingKey`, whose
/// outcome is a function of the three byte strings alone.
pub uninterp spec fn sig_verifies(pubkey: Seq<u8>, message: Seq<u8>, signature: Seq<u8>) -> bool;

/// The curve library's verdict on one resolved (public key, message,
/// signature) triple.
pub enum CurveCheck {
    /// The public key bytes do not decode to a curve point.
    BadPublicKey,
    /// The key decodes and the signature verifies.
    SignatureValid,
    /// The key decodes but the signature does not parse or verify.
    SignatureInvalid,
}

/// Relies on p256's `VerifyingKey::from_sec1_bytes` (pure point decoding),
/// `Signature::from_slice` (pure scalar-range parsing: `Ok` iff both halves
/// are in `1..order`), and `Verifier::verify` (pure ECDSA verification with
/// SHA-256, the curve's digest): all three are deterministic functions of
/// their byte-string arguments.
#[verifier::external_body]
pub(crate) fn curve_verify(pubkey: &[u8], message: &[u8], signature: &[u8]) -> (out: CurveCheck)
    ensures
        (out is BadPublicKey) == !point_decodes(pubkey@),
        point_decodes(pubkey@) ==> ((out is SignatureValid) == sig_verifies(
            pubkey@,
            message@,
            signature@,
        )),
{
    let key = match p256::ecdsa::VerifyingKey::from_sec1_bytes(pubkey) {
        Ok(k) => k,
        Err(_) => return CurveCheck::BadPublicKey,
    };
    let sig = match p256::ecdsa::Signature::from_slice(signature) {
        Ok(s) => s,
        Err(_) => return CurveCheck::SignatureInvalid,
    };
    match p256::ecdsa::signature::Verifier::verify(&key, message, &sig) {
        Ok(()) => CurveCheck::SignatureValid,
        Err(_) => CurveCheck::SignatureInvalid,
    }
}

/// Relies on ecdsa's `SigningKey::from_bytes`, which accepts exactly the
/// 32-byte big-endian encodings of the scalars in `1..order`; on
/// `Signer::sign` (deterministic RFC 6979 ECDSA, producing a signature that
/// `Verifier::verify` accepts under this key's public key); on
/// `Signature::normalize_s` (the equally valid low-S form, `s <= order / 2`;
/// both scalars of a `Signature` always lie in `1..order`); on
/// `Signature::to_bytes` (big-endian `r || s`, 64 bytes for P-256); and on
/// `VerifyingKey::to_encoded_point` with compression (33-byte SEC1 encoding
/// of the key's valid curve point, which `from_sec1_bytes` decodes again).
/// Returns the compressed public key and the low-S compact signature, or
/// `None` when the secret bytes are not a valid scalar.
#[verifier::external_body]
pub(crate) fn sign_with_pubkey(signer: &[u8], message: &[u8]) -> (out: Option<(Vec<u8>, Vec<u8>)>)
    requires
        signer@.len() == 32,
    ensures
        (out is Some) == (1 <= be_val(signer@) < p256_order()),
        out matches Some(ps) ==> {
            &&& ps.0@.len() == 33
            &&& ps.1@.len() == 64
            &&& point_decodes(ps.0@)
            &&& sig_verifies(ps.0@, message@, ps.1@)
            &&& 1 <= be_val(ps.1@.subrange(0, 32)) < p256_order()
            &&& 1 <= be_val(ps.1@.subrange(32, 64)) <= p256_order() / 2
        },
{
    let key = match p256::ecdsa::SigningKey::from_bytes(p256::FieldBytes::from_slice(signer)) {
        Ok(k) => k,
        Err(_) => return None,
    };
    let signature: p256::ecdsa::Signature = p256::ecdsa::signature::Signer::sign(&key, message);
    let signature = signature.normalize_s().unwrap_or(signature);
    let pubkey = p256::ecdsa::VerifyingKey::from(&key).to_encoded_point(true);
    Some((pubkey.as_bytes().to_vec(), signature.to_bytes().to_vec()))
}

} // verus!
