//! Software batch verification: every index of three equal-length sequences
//! of signatures, public keys and messages is verified independently, fanned
//! across a thread pool, and the results are reduced by logical AND.

use vstd::prelude::*;

verus! {

use rayon::iter::IntoParallelIterator;
use rayon::iter::ParallelIterator;

use crate::single_verify::single_result;
use crate::single_verify::unit_valid;
use crate::single_verify::verify_single;
use crate::single_verify::lemma_unit_valid_iff_ok_true;
use crate::utils::PublicKey;
use crate::utils::SchnorrSignature;
use crate::utils::VerifyError;

/// A batch is valid exactly when every index verifies.  A per-index error
/// (malformed key or signature material) counts as a failed unit, not as a
/// batch-level error.
pub open spec fn batch_valid(
    sigs: Seq<SchnorrSignature>,
    pks: Seq<PublicKey>,
    msgs: Seq<Vec<u8>>,
) -> bool {
    forall|i: int| 0 <= i < sigs.len() ==> unit_valid(sigs[i], pks[i], msgs[i]@)
}

/// The exact outcome of batch verification: sequences of differing lengths
/// fail fast with `LengthMismatch`; otherwise the result is the conjunction
/// of all per-index verifications.
pub open spec fn batch_result(
    sigs: Seq<SchnorrSignature>,
    pks: Seq<PublicKey>,
    msgs: Seq<Vec<u8>>,
) -> Result<bool, VerifyError> {
    if sigs.len() != pks.len() || sigs.len() != msgs.len() {
        Err(VerifyError::LengthMismatch)
    } else {
        Ok(batch_valid(sigs, pks, msgs))
    }
}

/// Law: the batch is valid exactly when every constituent single
/// verification answers `Ok(true)`.
pub proof fn lemma_batch_valid_iff_all_singles(
    sigs: Seq<SchnorrSignature>,
    pks: Seq<PublicKey>,
    msgs: Seq<Vec<u8>>,
)
    ensures
        batch_valid(sigs, pks, msgs) <==> (forall|i: int|
            0 <= i < sigs.len() ==> single_result(sigs[i], pks[i], msgs[i]@) == Ok::<
                bool,
                VerifyError,
            >(true)),
{
    assert forall|i: int| 0 <= i < sigs.len() implies (unit_valid(sigs[i], pks[i], msgs[i]@)
        <==> single_result(sigs[i], pks[i], msgs[i]@) == Ok::<bool, VerifyError>(true)) by {
        lemma_unit_valid_iff_ok_true(sigs[i], pks[i], msgs[i]@);
    }
}

/// Verifies a single Schnorr signature, one unit of a batch.
pub fn verify_individual(
    sig: &SchnorrSignature,
    pubkey: &PublicKey,
    message: &Vec<u8>,
) -> (r: Result<bool, VerifyError>)
    ensures
        r == single_result(*sig, *pubkey, message@),
{
    verify_single(sig, pubkey, message)
}

/// Relies on rayon's parallel iterators: `all` over the index range is the
/// conjunction of the closure's results, independent of scheduling order.
/// The closure only calls the verified `verify_individual`, whose contract
/// makes its result `Ok(true)` exactly on a valid unit, and maps a per-index
/// error to a failed unit.
#[verifier::external_body]
fn par_verify_all(
    sigs: &Vec<SchnorrSignature>,
    pks: &Vec<PublicKey>,
    msgs: &Vec<Vec<u8>>,
) -> (r: bool)
    requires
        sigs@.len() == pks@.len(),
        sigs@.len() == msgs@.len(),
    ensures
        r == batch_valid(sigs@, pks@, msgs@),
{
    (0..sigs.len())
        .into_par_iter()
        .map(|i| verify_individual(&sigs[i], &pks[i], &msgs[i]))
        .all(|res| res.unwrap_or(false))
}

/// Verifies a batch of Schnorr signatures on the software path.  Fails fast
/// with `LengthMismatch` before any verification work when the three
/// sequences differ in length; otherwise returns whether every index
/// verifies, with per-index errors degrading to a failed unit.
pub fn verify_batch_cpu(
    signatures: &Vec<SchnorrSignature>,
    public_keys: &Vec<PublicKey>,
    messages: &Vec<Vec<u8>>,
) -> (r: Result<bool, VerifyError>)
    ensures
        r == batch_result(signatures@, public_keys@, messages@),
{
    if signatures.len() != public_keys.len() || signatures.len() != messages.len() {
        return Err(VerifyError::LengthMismatch);
    }
    Ok(par_verify_all(signatures, public_keys, messages))
}

} // verus!
