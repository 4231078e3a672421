//! Schnorr signature verification over secp256k1, singly and in batches,
//! with an accelerator bridge that falls back to the software batch verifier
//! and an export formatter that canonicalizes a batch for a downstream proof
//! consumer.

use vstd::prelude::*;

pub mod batch_verify;
pub mod cpu_fallback;
pub mod gpu_bridge;
pub mod single_verify;
pub mod utils;
pub mod zk_prepare;

verus! {

use crate::batch_verify::batch_result;
use crate::single_verify::single_result;
use crate::utils::PublicKey;
use crate::utils::SchnorrSignature;
use crate::utils::VerifyError;

/// Verifies a batch of Schnorr signatures.  The batch is routed through the
/// accelerator bridge with acceleration off: no native kernel is linked into
/// the library itself, so the software batch verifier decides.  An embedding
/// application that does invoke a kernel calls `gpu_bridge::verify_batch`
/// with the toggle and the interpreted report instead; by
/// `gpu_bridge::lemma_bridge_matches_software` the outcome is the same.
pub fn verify_batch_schnorr_signatures(
    signatures: &Vec<SchnorrSignature>,
    public_keys: &Vec<PublicKey>,
    messages: &Vec<Vec<u8>>,
) -> (r: Result<bool, VerifyError>)
    ensures
        r == batch_result(signatures@, public_keys@, messages@),
{
    gpu_bridge::verify_batch(signatures, public_keys, messages, false, None)
}

/// Verifies a single Schnorr signature on the software path.
pub fn verify_single_signature(
    signature: &SchnorrSignature,
    public_key: &PublicKey,
    message: &Vec<u8>,
) -> (r: Result<bool, VerifyError>)
    ensures
        r == single_result(*signature, *public_key, message@),
{
    single_verify::verify_single(signature, public_key, message)
}

/// Prepares a batch for export to the proof-generation consumer: the
/// canonical hexadecimal record of `export_batch_for_zk`.  Serializing that
/// record to a wire format is the embedding application's step.
pub fn export_for_zk_proof(
    signatures: &Vec<SchnorrSignature>,
    public_keys: &Vec<PublicKey>,
    messages: &Vec<Vec<u8>>,
) -> (r: Result<zk_prepare::ZKBatchExport, VerifyError>)
    ensures
        r is Ok <==> (signatures@.len() == public_keys@.len() && signatures@.len()
            == messages@.len()),
        r matches Err(e) ==> e == VerifyError::LengthMismatch,
        r matches Ok(ex) ==> zk_prepare::exported_matches(
            ex,
            signatures@,
            public_keys@,
            messages@,
        ),
{
    zk_prepare::export_batch_for_zk(signatures, public_keys, messages)
}

} // verus!
