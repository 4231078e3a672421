//! Accelerator bridge: batch verification that consults an optional native
//! vector kernel before falling back to the software batch verifier.
//!
//! The native kernel itself is a foreign blocking call that the embedding
//! application performs; this module holds the verified decision logic.  The
//! kernel's report arrives as an `Option<bool>`: `Some` carries the outcome
//! it claims for the whole batch, and `None` means acceleration was
//! disabled, unavailable, or failed, in which case the software batch
//! verifier decides.  The accelerator is a performance path only: it is
//! obliged to report the same outcome the software path computes, and
//! `lemma_bridge_matches_software` states that under that obligation the two
//! paths agree for every batch.

use vstd::prelude::*;

verus! {

use crate::batch_verify::batch_result;
use crate::batch_verify::batch_valid;
use crate::batch_verify::verify_batch_cpu;
use crate::utils::PublicKey;
use crate::utils::SchnorrSignature;
use crate::utils::VerifyError;

/// The exact outcome of the bridge: sequences of differing lengths fail fast
/// with `LengthMismatch` before the toggle or the kernel's report is even
/// considered; with acceleration disabled, or with no kernel report, the
/// software batch verifier decides; otherwise the report decides.
pub open spec fn bridge_result(
    sigs: Seq<SchnorrSignature>,
    pks: Seq<PublicKey>,
    msgs: Seq<Vec<u8>>,
    acceleration_enabled: bool,
    kernel_outcome: Option<bool>,
) -> Result<bool, VerifyError> {
    if sigs.len() != pks.len() || sigs.len() != msgs.len() {
        Err(VerifyError::LengthMismatch)
    } else if !acceleration_enabled {
        Ok(batch_valid(sigs, pks, msgs))
    } else {
        match kernel_outcome {
            Some(b) => Ok(b),
            None => Ok(batch_valid(sigs, pks, msgs)),
        }
    }
}

/// Law: the bridge and the software batch verifier agree on every batch,
/// whether or not acceleration ran, provided the kernel reports the true
/// outcome whenever it reports at all — the accelerator is a performance
/// path, never a semantics path.
pub proof fn lemma_bridge_matches_software(
    sigs: Seq<SchnorrSignature>,
    pks: Seq<PublicKey>,
    msgs: Seq<Vec<u8>>,
    acceleration_enabled: bool,
    kernel_outcome: Option<bool>,
)
    requires
        kernel_outcome matches Some(b) ==> b == batch_valid(sigs, pks, msgs),
    ensures
        bridge_result(sigs, pks, msgs, acceleration_enabled, kernel_outcome) == batch_result(
            sigs,
            pks,
            msgs,
        ),
{
}

/// Interprets the native kernel's sentinel return value: `1` reports the
/// whole batch valid, `0` reports it invalid, and any other value is an
/// unexpected report that makes the bridge fall back to software
/// verification.
pub fn interpret_kernel_code(code: i32) -> (r: Option<bool>)
    ensures
        r == (if code == 1 {
            Some(true)
        } else if code == 0 {
            Some(false)
        } else {
            None::<bool>
        }),
{
    if code == 1 {
        Some(true)
    } else if code == 0 {
        Some(false)
    } else {
        None
    }
}

/// Verifies a batch through the accelerator bridge.
/// `acceleration_enabled` is the configuration toggle, read once per call
/// and threaded in explicitly; when it is off the software batch verifier
/// decides, whatever report may be at hand.  `kernel_outcome` is the native
/// kernel's interpreted report, or `None` when the kernel is unavailable or
/// its invocation failed; the embedding application produces it with
/// `interpret_kernel_code`.  The observable result is `bridge_result`:
/// fail-fast on a length mismatch, then the kernel's report when
/// acceleration is on and a report exists, and the software batch verifier
/// otherwise.
pub fn verify_batch(
    signatures: &Vec<SchnorrSignature>,
    pubkeys: &Vec<PublicKey>,
    messages: &Vec<Vec<u8>>,
    acceleration_enabled: bool,
    kernel_outcome: Option<bool>,
) -> (r: Result<bool, VerifyError>)
    ensures
        r == bridge_result(signatures@, pubkeys@, messages@, acceleration_enabled, kernel_outcome),
{
    if signatures.len() != pubkeys.len() || signatures.len() != messages.len() {
        return Err(VerifyError::LengthMismatch);
    }
    if !acceleration_enabled {
        return verify_batch_cpu(signatures, pubkeys, messages);
    }
    match kernel_outcome {
        Some(valid) => Ok(valid),
        None => verify_batch_cpu(signatures, pubkeys, messages),
    }
}

} // verus!
