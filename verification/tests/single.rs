// Single-signature verification against signatures built with the real
// secp256k1 arithmetic.

use k256::elliptic_curve::ops::Reduce;
use k256::elliptic_curve::sec1::ToSec1Point;
use k256::{FieldBytes, ProjectivePoint, Scalar};
use sha2::{Digest, Sha256};

use schnorr_engine::utils::{GroupPoint, PublicKey, Scalar as LibScalar, SchnorrSignature,
    VerifyError, challenge_hash, scalar_from_bytes};
use schnorr_engine::single_verify::verify_single;
use schnorr_engine::verify_single_signature;
use schnorr_engine::cpu_fallback::verify_single_cpu;

fn coords(p: &ProjectivePoint) -> (Vec<u8>, Vec<u8>) {
    let ep = p.to_sec1_point(false);
    (
        ep.x().unwrap().as_slice().to_vec(),
        ep.y().unwrap().as_slice().to_vec(),
    )
}

fn challenge(rx: &[u8], px: &[u8], py: &[u8], msg: &[u8]) -> Scalar {
    let mut h = Sha256::new();
    h.update(rx);
    h.update(px);
    h.update(py);
    h.update(msg);
    let d = h.finalize();
    let fb = FieldBytes::try_from(d.as_slice()).unwrap();
    <Scalar as Reduce<FieldBytes>>::reduce(&fb)
}

pub fn make_signed(x: u64, k: u64, msg: &[u8]) -> (SchnorrSignature, PublicKey) {
    let xs = Scalar::from(x);
    let ks = Scalar::from(k);
    let p = ProjectivePoint::GENERATOR * xs;
    let r = ProjectivePoint::GENERATOR * ks;
    let (rx, ry) = coords(&r);
    let (px, py) = coords(&p);
    let e = challenge(&rx, &px, &py, msg);
    let s = ks + e * xs;
    (
        SchnorrSignature {
            r: GroupPoint { x: rx, y: ry },
            s: LibScalar {
                bytes: s.to_bytes().as_slice().to_vec(),
            },
        },
        PublicKey { x: px, y: py },
    )
}

#[test]
fn valid_signature_verifies() {
    let msg = b"attack at dawn".to_vec();
    let (sig, pk) = make_signed(1234567, 891011, &msg);
    assert_eq!(verify_single(&sig, &pk, &msg), Ok(true));
    assert_eq!(verify_single_signature(&sig, &pk, &msg), Ok(true));
    assert_eq!(verify_single_cpu(&sig, &pk, &msg), Ok(true));
}

#[test]
fn message_bit_flip_rejected() {
    let msg = b"attack at dawn".to_vec();
    let (sig, pk) = make_signed(1234567, 891011, &msg);
    let mut bad = msg.clone();
    bad[3] ^= 0x01;
    assert_eq!(verify_single(&sig, &pk, &bad), Ok(false));
}

#[test]
fn scalar_bit_flip_rejected() {
    let msg = b"attack at dawn".to_vec();
    let (mut sig, pk) = make_signed(1234567, 891011, &msg);
    // Flipping a bit in the middle keeps the scalar canonical but breaks
    // the equation.
    sig.s.bytes[20] ^= 0x80;
    assert_eq!(verify_single(&sig, &pk, &msg), Ok(false));
}

#[test]
fn commitment_perturbation_not_valid() {
    let msg = b"attack at dawn".to_vec();
    let (mut sig, pk) = make_signed(1234567, 891011, &msg);
    sig.r.x[31] ^= 0x01;
    // A perturbed commitment x-coordinate either leaves the curve (an
    // encoding error) or fails the equation; it never verifies.
    assert_ne!(verify_single(&sig, &pk, &msg), Ok(true));
}

#[test]
fn off_curve_public_key_is_invalid() {
    let msg = b"m".to_vec();
    let (sig, _) = make_signed(3, 5, &msg);
    // (1, 2) has the right widths but does not satisfy y^2 = x^3 + 7.
    let mut x = vec![0u8; 32];
    x[31] = 1;
    let mut y = vec![0u8; 32];
    y[31] = 2;
    let bad_pk = PublicKey { x, y };
    assert_eq!(
        verify_single(&sig, &bad_pk, &msg),
        Err(VerifyError::InvalidPublicKey)
    );
}

#[test]
fn malformed_inputs_are_encoding_errors() {
    let msg = b"m".to_vec();
    let (sig, pk) = make_signed(3, 5, &msg);

    // Public key coordinate of the wrong width.
    let short_pk = PublicKey {
        x: vec![1u8; 31],
        y: pk.y.clone(),
    };
    assert_eq!(
        verify_single(&sig, &short_pk, &msg),
        Err(VerifyError::EncodingError)
    );

    // Non-canonical scalar: 32 bytes of 0xff exceed the group order.
    let mut bad_sig = sig.clone();
    bad_sig.s.bytes = vec![0xffu8; 32];
    assert_eq!(
        verify_single(&bad_sig, &pk, &msg),
        Err(VerifyError::EncodingError)
    );

    // Commitment point off the curve.
    let mut bad_r = sig.clone();
    bad_r.r.x = {
        let mut x = vec![0u8; 32];
        x[31] = 1;
        x
    };
    bad_r.r.y = {
        let mut y = vec![0u8; 32];
        y[31] = 2;
        y
    };
    assert_eq!(
        verify_single(&bad_r, &pk, &msg),
        Err(VerifyError::EncodingError)
    );
}

#[test]
fn challenge_hash_matches_reference() {
    let msg = b"challenge me".to_vec();
    let (sig, pk) = make_signed(42, 99, &msg);
    let e = challenge_hash(&sig.r.x, &pk, &msg).unwrap();
    let expected = challenge(&sig.r.x, &pk.x, &pk.y, &msg);
    assert_eq!(e.bytes, expected.to_bytes().as_slice().to_vec());

    let short = vec![0u8; 31];
    assert_eq!(
        challenge_hash(&short, &pk, &msg),
        Err(VerifyError::EncodingError)
    );
}

#[test]
fn scalar_from_bytes_reduces() {
    // The group order n, plus one: reduces to 1.
    let n_plus_one =
        hex::decode("fffffffffffffffffffffffffffffffebaaedce6af48a03bbfd25e8cd0364142")
            .unwrap();
    let s = scalar_from_bytes(&n_plus_one).unwrap();
    let mut one = vec![0u8; 32];
    one[31] = 1;
    assert_eq!(s.bytes, one);

    // A value below the order is kept as it is.
    let small = {
        let mut v = vec![0u8; 32];
        v[31] = 7;
        v
    };
    assert_eq!(scalar_from_bytes(&small).unwrap().bytes, small);

    // Wrong width.
    assert_eq!(
        scalar_from_bytes(&vec![0u8; 16]),
        Err(VerifyError::EncodingError)
    );
}

#[test]
fn to_projective_validates() {
    let msg = b"m".to_vec();
    let (_, pk) = make_signed(3, 5, &msg);
    assert!(pk.to_projective().is_ok());

    let mut x = vec![0u8; 32];
    x[31] = 1;
    let mut y = vec![0u8; 32];
    y[31] = 2;
    let off = PublicKey { x, y };
    assert_eq!(off.to_projective(), Err(VerifyError::InvalidPublicKey));

    let short = PublicKey {
        x: vec![0u8; 31],
        y: vec![0u8; 32],
    };
    assert_eq!(short.to_projective(), Err(VerifyError::EncodingError));
}
