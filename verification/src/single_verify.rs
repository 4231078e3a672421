//! Single-signature Schnorr verifier: evaluates the group equation
//! `s · G == R + e · P` for one signature, public key and message.

use vstd::prelude::*;

verus! {

use crate::utils::PublicKey;
use crate::utils::SchnorrSignature;
use crate::utils::VerifyError;
use crate::utils::add_mul;
use crate::utils::add_mul_of;
use crate::utils::bytes_equal;
use crate::utils::challenge_hash;
use crate::utils::challenge_of;
use crate::utils::decode_affine;
use crate::utils::mul_base;
use crate::utils::mul_base_of;
use crate::utils::on_curve_of;
use crate::utils::pk_wf;
use crate::utils::scalar_reduce;
use crate::utils::sig_wf;

/// The group equation `s · G == R + e · P`, compared on canonical SEC1
/// encodings, with `e` the challenge scalar for this signature, key and
/// message.
pub open spec fn equation_holds(sig: SchnorrSignature, pk: PublicKey, msg: Seq<u8>) -> bool {
    mul_base_of(sig.s@) == add_mul_of(
        sig.r.x@,
        sig.r.y@,
        challenge_of(sig.r.x@, pk.x@, pk.y@, msg),
        pk.x@,
        pk.y@,
    )
}

/// A single verification unit counts as valid exactly when all material is
/// well-formed, both points lie on the curve, and the group equation holds.
pub open spec fn unit_valid(sig: SchnorrSignature, pk: PublicKey, msg: Seq<u8>) -> bool {
    &&& pk_wf(pk)
    &&& on_curve_of(pk.x@, pk.y@)
    &&& sig_wf(sig)
    &&& on_curve_of(sig.r.x@, sig.r.y@)
    &&& equation_holds(sig, pk, msg)
}

/// The exact outcome of single verification: a malformed public key width is
/// an `EncodingError`, a well-formed pair off the curve is an
/// `InvalidPublicKey`, malformed signature material is an `EncodingError`,
/// and otherwise the boolean value of the group equation is returned.
pub open spec fn single_result(sig: SchnorrSignature, pk: PublicKey, msg: Seq<u8>) -> Result<
    bool,
    VerifyError,
> {
    if !pk_wf(pk) {
        Err(VerifyError::EncodingError)
    } else if !on_curve_of(pk.x@, pk.y@) {
        Err(VerifyError::InvalidPublicKey)
    } else if !(sig_wf(sig) && on_curve_of(sig.r.x@, sig.r.y@)) {
        Err(VerifyError::EncodingError)
    } else {
        Ok(equation_holds(sig, pk, msg))
    }
}

/// A verification unit is valid exactly when single verification answers
/// `Ok(true)`.
pub proof fn lemma_unit_valid_iff_ok_true(sig: SchnorrSignature, pk: PublicKey, msg: Seq<u8>)
    ensures
        unit_valid(sig, pk, msg) <==> single_result(sig, pk, msg) == Ok::<bool, VerifyError>(true),
{
}

/// Verifies a single Schnorr signature against a message and public key.
/// Returns `Ok(true)` exactly for a valid signature, `Ok(false)` for
/// well-formed material whose group equation fails, and an error only for
/// malformed input, as `single_result` states.
pub fn verify_single(
    signature: &SchnorrSignature,
    pubkey: &PublicKey,
    message: &Vec<u8>,
) -> (r: Result<bool, VerifyError>)
    ensures
        r == single_result(*signature, *pubkey, message@),
{
    // Step 1: validate the public key point.
    if pubkey.x.len() != 32 || pubkey.y.len() != 32 {
        return Err(VerifyError::EncodingError);
    }
    if decode_affine(&pubkey.x, &pubkey.y).is_none() {
        return Err(VerifyError::InvalidPublicKey);
    }
    // Validate the signature material: coordinate widths, scalar
    // canonicality, and the commitment point being on the curve.
    if signature.r.x.len() != 32 || signature.r.y.len() != 32 {
        return Err(VerifyError::EncodingError);
    }
    if signature.s.bytes.len() != 32 {
        return Err(VerifyError::EncodingError);
    }
    let reduced = scalar_reduce(&signature.s.bytes);
    if !bytes_equal(&reduced, &signature.s.bytes) {
        return Err(VerifyError::EncodingError);
    }
    if decode_affine(&signature.r.x, &signature.r.y).is_none() {
        return Err(VerifyError::EncodingError);
    }
    // Step 2: the challenge scalar e = H(R.x || P.x || P.y || m) mod n.
    let e = match challenge_hash(&signature.r.x, pubkey, message) {
        Ok(e) => e,
        Err(er) => {
            return Err(er);
        },
    };
    // Steps 3 and 4: compare s · G with R + e · P on canonical encodings.
    let lhs = mul_base(&signature.s.bytes);
    let rhs = add_mul(&signature.r.x, &signature.r.y, &e.bytes, &pubkey.x, &pubkey.y);
    Ok(bytes_equal(&lhs, &rhs))
}

} // verus!
