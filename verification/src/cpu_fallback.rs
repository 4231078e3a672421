//! CPU fallback entry points for Schnorr verification, single and batch.
//! Both delegate to the one consolidated verifier implementation, so the
//! fallback path cannot diverge from the direct software path.

use vstd::prelude::*;

verus! {

use crate::batch_verify::batch_result;
use crate::batch_verify::verify_batch_cpu as batch_verify_batch_cpu;
use crate::single_verify::single_result;
use crate::single_verify::verify_single;
use crate::utils::PublicKey;
use crate::utils::SchnorrSignature;
use crate::utils::VerifyError;

/// Verifies a single Schnorr signature on the CPU fallback path.
pub fn verify_single_cpu(
    signature: &SchnorrSignature,
    pubkey: &PublicKey,
    message: &Vec<u8>,
) -> (r: Result<bool, VerifyError>)
    ensures
        r == single_result(*signature, *pubkey, message@),
{
    verify_single(signature, pubkey, message)
}

/// Verifies a batch of Schnorr signatures on the CPU fallback path.
/// Returns `Ok(true)` exactly when all units in the batch are valid, and
/// `LengthMismatch` when the sequences differ in length.
pub fn verify_batch_cpu(
    signatures: &Vec<SchnorrSignature>,
    pubkeys: &Vec<PublicKey>,
    messages: &Vec<Vec<u8>>,
) -> (r: Result<bool, VerifyError>)
    ensures
        r == batch_result(signatures@, pubkeys@, messages@),
{
    batch_verify_batch_cpu(signatures, pubkeys, messages)
}

} // verus!
