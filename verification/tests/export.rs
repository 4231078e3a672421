// The batch export formatter and its hexadecimal round trip.

use k256::elliptic_curve::ops::Reduce;
use k256::elliptic_curve::sec1::ToSec1Point;
use k256::{FieldBytes, ProjectivePoint, Scalar};
use sha2::{Digest, Sha256};

use schnorr_engine::export_for_zk_proof;
use schnorr_engine::utils::{GroupPoint, PublicKey, Scalar as LibScalar, SchnorrSignature,
    VerifyError};
use schnorr_engine::zk_prepare::{decode_hex, export_batch_for_zk};

fn coords(p: &ProjectivePoint) -> (Vec<u8>, Vec<u8>) {
    let ep = p.to_sec1_point(false);
    (
        ep.x().unwrap().as_slice().to_vec(),
        ep.y().unwrap().as_slice().to_vec(),
    )
}

fn challenge(rx: &[u8], px: &[u8], py: &[u8], msg: &[u8]) -> Scalar {
    let mut h = Sha256::new();
    h.update(rx);
    h.update(px);
    h.update(py);
    h.update(msg);
    let d = h.finalize();
    let fb = FieldBytes::try_from(d.as_slice()).unwrap();
    <Scalar as Reduce<FieldBytes>>::reduce(&fb)
}

fn make_signed(x: u64, k: u64, msg: &[u8]) -> (SchnorrSignature, PublicKey) {
    let xs = Scalar::from(x);
    let ks = Scalar::from(k);
    let p = ProjectivePoint::GENERATOR * xs;
    let r = ProjectivePoint::GENERATOR * ks;
    let (rx, ry) = coords(&r);
    let (px, py) = coords(&p);
    let e = challenge(&rx, &px, &py, msg);
    let s = ks + e * xs;
    (
        SchnorrSignature {
            r: GroupPoint { x: rx, y: ry },
            s: LibScalar {
                bytes: s.to_bytes().as_slice().to_vec(),
            },
        },
        PublicKey { x: px, y: py },
    )
}

#[test]
fn export_round_trip() {
    let msg1 = b"first message".to_vec();
    let msg2 = b"second message".to_vec();
    let (sig1, pk1) = make_signed(11, 13, &msg1);
    let (sig2, pk2) = make_signed(17, 19, &msg2);
    let sigs = vec![sig1.clone(), sig2.clone()];
    let pks = vec![pk1.clone(), pk2.clone()];
    let msgs = vec![msg1.clone(), msg2.clone()];

    let ex = export_batch_for_zk(&sigs, &pks, &msgs).unwrap();
    assert_eq!(ex.signatures.len(), 2);
    assert_eq!(ex.pubkeys.len(), 2);
    assert_eq!(ex.messages, msgs);

    // The library's own verified decoder reproduces the original bytes.
    assert_eq!(decode_hex(&ex.signatures[0].r_x), Some(sig1.r.x.clone()));
    assert_eq!(decode_hex(&ex.signatures[0].s), Some(sig1.s.bytes.clone()));
    assert_eq!(decode_hex(&ex.signatures[1].s), Some(sig2.s.bytes.clone()));
    assert_eq!(decode_hex(&ex.pubkeys[0].x), Some(pk1.x.clone()));
    assert_eq!(decode_hex(&ex.pubkeys[0].y), Some(pk1.y.clone()));
    assert_eq!(decode_hex(&ex.pubkeys[1].x), Some(pk2.x.clone()));

    // Cross-check against an independent hex decoding.
    assert_eq!(hex::decode(&ex.signatures[1].r_x).unwrap(), sig2.r.x);
    assert_eq!(hex::decode(&ex.pubkeys[1].y).unwrap(), pk2.y);

    // The rendering is lowercase fixed-width hexadecimal.
    assert_eq!(ex.signatures[0].s.len(), 64);
    assert!(ex.signatures[0]
        .s
        .chars()
        .all(|c| c.is_ascii_digit() || ('a'..='f').contains(&c)));
}

#[test]
fn export_known_bytes() {
    let msg = vec![0x00u8, 0x01, 0xab, 0xff];
    let (mut sig, pk) = make_signed(3, 5, &msg);
    sig.s.bytes = {
        let mut v = vec![0u8; 32];
        v[0] = 0xde;
        v[1] = 0xad;
        v[30] = 0xbe;
        v[31] = 0xef;
        v
    };
    let ex = export_batch_for_zk(&vec![sig], &vec![pk], &vec![msg]).unwrap();
    assert_eq!(
        ex.signatures[0].s,
        "dead00000000000000000000000000000000000000000000000000000000beef"
    );
}

#[test]
fn export_length_mismatch_fails_fast() {
    let msg = b"m".to_vec();
    let (sig, pk) = make_signed(3, 5, &msg);
    let sigs = vec![sig.clone(), sig.clone(), sig];
    let pks = vec![pk.clone(), pk];
    let msgs = vec![msg.clone(), msg.clone(), msg];
    assert_eq!(
        export_batch_for_zk(&sigs, &pks, &msgs),
        Err(VerifyError::LengthMismatch)
    );
    assert_eq!(
        export_for_zk_proof(&sigs, &pks, &msgs),
        Err(VerifyError::LengthMismatch)
    );
}

#[test]
fn decode_hex_rejects_malformed_strings() {
    assert_eq!(decode_hex("abc"), None); // odd length
    assert_eq!(decode_hex("zz"), None); // not a hex digit
    assert_eq!(decode_hex("AB"), None); // uppercase is not canonical
    assert_eq!(decode_hex(""), Some(vec![]));
    assert_eq!(decode_hex("00ff10"), Some(vec![0x00, 0xff, 0x10]));
}
