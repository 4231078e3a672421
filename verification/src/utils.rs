//! Core data types of the Schnorr engine, the challenge hasher, and the
//! trusted boundary to the secp256k1 arithmetic provider.
//!
//! Scalars and curve points are carried as fixed-width big-endian byte
//! strings: a scalar is 32 bytes, reduced modulo the group order; a point is
//! an affine coordinate pair of 32 bytes each.  The group operations
//! themselves are supplied by the `k256` crate behind trusted wrappers whose
//! results are named by uninterpreted spec functions; everything around those
//! calls is verified.

use vstd::prelude::*;

verus! {

use k256::elliptic_curve::ops::Reduce;
use k256::elliptic_curve::sec1::FromSec1Point;
use k256::elliptic_curve::sec1::ToSec1Point;

/// Errors surfaced for malformed input.  Mathematical invalidity of a
/// signature is reported as `Ok(false)` by the verifiers, never as an error.
#[derive(Clone, Copy, Debug, PartialEq, Eq, Structural)]
pub enum VerifyError {
    /// The three batch sequences do not all have the same length.
    LengthMismatch,
    /// A public key coordinate pair does not describe a point on the curve.
    InvalidPublicKey,
    /// A scalar or coordinate is not in its canonical fixed-width encoding.
    EncodingError,
}

/// What `sha2::Sha256::digest` returns: a function of the input bytes alone.
pub uninterp spec fn sha256_of(data: Seq<u8>) -> Seq<u8>;

/// What reducing a 32-byte big-endian integer modulo the secp256k1 group
/// order returns, re-encoded as 32 canonical big-endian bytes.
pub uninterp spec fn reduce_of(b: Seq<u8>) -> Seq<u8>;

/// Whether the 32-byte coordinates `x`, `y` describe a point on secp256k1:
/// what decoding the SEC1 uncompressed encoding `04 || x || y` reports.
pub uninterp spec fn on_curve_of(x: Seq<u8>, y: Seq<u8>) -> bool;

/// The SEC1 encoding of `s · G`, for `G` the fixed secp256k1 generator and
/// `s` a canonical 32-byte scalar.
pub uninterp spec fn mul_base_of(s: Seq<u8>) -> Seq<u8>;

/// The SEC1 encoding of `R + e · P`, where `R` and `P` are the on-curve
/// points with coordinates `(rx, ry)` and `(px, py)` and `e` is a canonical
/// 32-byte scalar.
pub uninterp spec fn add_mul_of(
    rx: Seq<u8>,
    ry: Seq<u8>,
    e: Seq<u8>,
    px: Seq<u8>,
    py: Seq<u8>,
) -> Seq<u8>;

/// A canonical scalar encoding: 32 bytes, already reduced modulo the group
/// order.
pub open spec fn scalar_canonical(s: Seq<u8>) -> bool {
    s.len() == 32 && reduce_of(s) == s
}

/// The challenge scalar bytes for commitment x-coordinate `rx`, public key
/// coordinates `px`, `py` and message `m`: the SHA-256 digest of the
/// fixed-width concatenation `rx || px || py || m`, reduced modulo the group
/// order.
pub open spec fn challenge_of(rx: Seq<u8>, px: Seq<u8>, py: Seq<u8>, m: Seq<u8>) -> Seq<u8> {
    reduce_of(sha256_of(rx + px + py + m))
}

/// Law: the challenge input encoding is unambiguous.  The concatenation
/// `rx || px || py || m` uses a fixed 32-byte field for each coordinate, so
/// two triples-with-message that agree on the concatenated bytes are equal
/// component by component: distinct inputs can only collide on the challenge
/// by colliding on the hash itself.
pub proof fn lemma_challenge_input_unambiguous(
    rx1: Seq<u8>,
    px1: Seq<u8>,
    py1: Seq<u8>,
    m1: Seq<u8>,
    rx2: Seq<u8>,
    px2: Seq<u8>,
    py2: Seq<u8>,
    m2: Seq<u8>,
)
    requires
        rx1.len() == 32,
        px1.len() == 32,
        py1.len() == 32,
        rx2.len() == 32,
        px2.len() == 32,
        py2.len() == 32,
        rx1 + px1 + py1 + m1 == rx2 + px2 + py2 + m2,
    ensures
        rx1 == rx2,
        px1 == px2,
        py1 == py2,
        m1 == m2,
{
    let s = rx1 + px1 + py1 + m1;
    assert(rx1 =~= s.subrange(0, 32));
    assert(px1 =~= s.subrange(32, 64));
    assert(py1 =~= s.subrange(64, 96));
    assert(m1 =~= s.subrange(96, s.len() as int));
    assert(rx2 =~= s.subrange(0, 32));
    assert(px2 =~= s.subrange(32, 64));
    assert(py2 =~= s.subrange(64, 96));
    assert(m2 =~= s.subrange(96, s.len() as int));
}

/// A scalar modulo the secp256k1 group order, as 32 canonical big-endian
/// bytes.  Constructed through `scalar_from_bytes`, which reduces.
#[derive(Clone, Debug, PartialEq, Eq)]
pub struct Scalar {
    pub bytes: Vec<u8>,
}

impl View for Scalar {
    type V = Seq<u8>;

    open spec fn view(&self) -> Seq<u8> {
        self.bytes@
    }
}

/// An affine curve point as a pair of 32-byte big-endian coordinates.
/// Whether the pair actually lies on the curve is checked where it is used.
#[derive(Clone, Debug, PartialEq, Eq)]
pub struct GroupPoint {
    pub x: Vec<u8>,
    pub y: Vec<u8>,
}

/// A Schnorr signature: the commitment point `R` and the scalar `s`.
#[derive(Clone, Debug, PartialEq, Eq)]
pub struct SchnorrSignature {
    pub r: GroupPoint,
    pub s: Scalar,
}

/// A signer's public key as an affine coordinate pair.
#[derive(Clone, Debug, PartialEq, Eq)]
pub struct PublicKey {
    pub x: Vec<u8>,
    pub y: Vec<u8>,
}

/// Both public key coordinates have the expected fixed width.
pub open spec fn pk_wf(pk: PublicKey) -> bool {
    pk.x@.len() == 32 && pk.y@.len() == 32
}

/// The signature's commitment coordinates have the expected fixed width and
/// its scalar is canonical.
pub open spec fn sig_wf(sig: SchnorrSignature) -> bool {
    sig.r.x@.len() == 32 && sig.r.y@.len() == 32 && scalar_canonical(sig.s@)
}

#[verifier::external_type_specification]
#[verifier::external_body]
pub struct ExProjectivePoint(k256::ProjectivePoint);

/// Relies on `sha2::Sha256::digest`: the 32-byte digest is a function of the
/// input bytes alone.
#[verifier::external_body]
pub(crate) fn sha256_digest(data: &Vec<u8>) -> (r: Vec<u8>)
    ensures
        r@ == sha256_of(data@),
        r@.len() == 32,
{
    let digest = <sha2::Sha256 as sha2::Digest>::digest(data.as_slice());
    digest.as_slice().to_vec()
}

/// Relies on `k256::Scalar` as `Reduce<FieldBytes>` and `Scalar::to_bytes`:
/// the result is the canonical 32-byte encoding of the input taken modulo the
/// group order, so reducing it again returns it unchanged.
#[verifier::external_body]
pub(crate) fn scalar_reduce(b: &Vec<u8>) -> (r: Vec<u8>)
    requires
        b@.len() == 32,
    ensures
        r@ == reduce_of(b@),
        r@.len() == 32,
        reduce_of(r@) == r@,
{
    let fb = k256::FieldBytes::try_from(b.as_slice()).unwrap();
    let s = <k256::Scalar as Reduce<k256::FieldBytes>>::reduce(&fb);
    s.to_bytes().as_slice().to_vec()
}

/// Relies on `k256::AffinePoint::from_sec1_bytes`: parsing succeeds exactly
/// when `04 || x || y` is the SEC1 encoding of a point on secp256k1.
#[verifier::external_body]
pub(crate) fn decode_affine(x: &Vec<u8>, y: &Vec<u8>) -> (r: Option<k256::ProjectivePoint>)
    requires
        x@.len() == 32,
        y@.len() == 32,
    ensures
        r is Some <==> on_curve_of(x@, y@),
{
    let mut bytes: Vec<u8> = vec![0x04u8];
    bytes.extend_from_slice(x.as_slice());
    bytes.extend_from_slice(y.as_slice());
    match k256::AffinePoint::from_sec1_bytes(&bytes) {
        Ok(p) => Some(k256::ProjectivePoint::from(p)),
        Err(_) => None,
    }
}

/// Relies on `k256::ProjectivePoint`'s scalar multiplication and SEC1
/// encoding: the result encodes `s · G` for the generator `G`.  The scalar is
/// canonical, so parsing it by reduction does not change its value.
#[verifier::external_body]
pub(crate) fn mul_base(s: &Vec<u8>) -> (r: Vec<u8>)
    requires
        scalar_canonical(s@),
    ensures
        r@ == mul_base_of(s@),
{
    let fb = k256::FieldBytes::try_from(s.as_slice()).unwrap();
    let sc = <k256::Scalar as Reduce<k256::FieldBytes>>::reduce(&fb);
    let p = k256::ProjectivePoint::GENERATOR * sc;
    p.to_sec1_point(false).as_bytes().to_vec()
}

/// Relies on `k256::ProjectivePoint`'s point addition, scalar multiplication
/// and SEC1 encoding: the result encodes `R + e · P`.  Both coordinate pairs
/// are on the curve, so the decodes cannot fail; the scalar is canonical, so
/// parsing it by reduction does not change its value.
#[verifier::external_body]
pub(crate) fn add_mul(
    rx: &Vec<u8>,
    ry: &Vec<u8>,
    e: &Vec<u8>,
    px: &Vec<u8>,
    py: &Vec<u8>,
) -> (r: Vec<u8>)
    requires
        on_curve_of(rx@, ry@),
        on_curve_of(px@, py@),
        rx@.len() == 32,
        ry@.len() == 32,
        px@.len() == 32,
        py@.len() == 32,
        scalar_canonical(e@),
    ensures
        r@ == add_mul_of(rx@, ry@, e@, px@, py@),
{
    let rp = decode_affine(rx, ry).unwrap();
    let pp = decode_affine(px, py).unwrap();
    let fb = k256::FieldBytes::try_from(e.as_slice()).unwrap();
    let ec = <k256::Scalar as Reduce<k256::FieldBytes>>::reduce(&fb);
    (rp + pp * ec).to_sec1_point(false).as_bytes().to_vec()
}

/// Byte-for-byte equality of two byte vectors.
pub(crate) fn bytes_equal(a: &Vec<u8>, b: &Vec<u8>) -> (r: bool)
    ensures
        r == (a@ == b@),
{
    if a.len() != b.len() {
        return false;
    }
    for i in 0..a.len()
        invariant
            a@.len() == b@.len(),
            i <= a@.len(),
            forall|k: int| 0 <= k < i ==> a@[k] == b@[k],
    {
        if a[i] != b[i] {
            return false;
        }
    }
    proof {
        assert(a@ =~= b@);
    }
    true
}

/// Appends every byte of `src` to `dst`.
pub(crate) fn append_bytes(dst: &mut Vec<u8>, src: &Vec<u8>)
    ensures
        final(dst)@ == old(dst)@ + src@,
{
    for i in 0..src.len()
        invariant
            i <= src@.len(),
            dst@ == old(dst)@ + src@.subrange(0, i as int),
    {
        dst.push(src[i]);
        proof {
            assert(dst@ =~= old(dst)@ + src@.subrange(0, i + 1));
        }
    }
    proof {
        assert(src@.subrange(0, src@.len() as int) =~= src@);
    }
}

impl PublicKey {
    /// Decodes the coordinate pair into the arithmetic provider's point
    /// type: `Ok` exactly when both coordinates have the fixed width and the
    /// pair lies on the curve.
    pub fn to_projective(&self) -> (r: Result<k256::ProjectivePoint, VerifyError>)
        ensures
            r is Ok <==> (pk_wf(*self) && on_curve_of(self.x@, self.y@)),
            !pk_wf(*self) ==> r == Err::<k256::ProjectivePoint, VerifyError>(
                VerifyError::EncodingError,
            ),
            pk_wf(*self) && !on_curve_of(self.x@, self.y@) ==> r == Err::<
                k256::ProjectivePoint,
                VerifyError,
            >(VerifyError::InvalidPublicKey),
    {
        if self.x.len() != 32 || self.y.len() != 32 {
            return Err(VerifyError::EncodingError);
        }
        match decode_affine(&self.x, &self.y) {
            Some(p) => Ok(p),
            None => Err(VerifyError::InvalidPublicKey),
        }
    }
}

/// Derives the challenge scalar `e` by hashing `rx || pk.x || pk.y || msg`
/// with SHA-256 and reducing modulo the group order.  Fails with
/// `EncodingError` exactly when a coordinate does not have the fixed 32-byte
/// width.
pub fn challenge_hash(r_x: &Vec<u8>, pk: &PublicKey, msg: &Vec<u8>) -> (r: Result<
    Scalar,
    VerifyError,
>)
    ensures
        r is Ok <==> (r_x@.len() == 32 && pk_wf(*pk)),
        r matches Ok(e) ==> e@ == challenge_of(r_x@, pk.x@, pk.y@, msg@) && scalar_canonical(e@),
        r matches Err(er) ==> er == VerifyError::EncodingError,
{
    if r_x.len() != 32 || pk.x.len() != 32 || pk.y.len() != 32 {
        return Err(VerifyError::EncodingError);
    }
    let mut buf: Vec<u8> = Vec::new();
    append_bytes(&mut buf, r_x);
    append_bytes(&mut buf, &pk.x);
    append_bytes(&mut buf, &pk.y);
    append_bytes(&mut buf, msg);
    proof {
        assert(buf@ =~= r_x@ + pk.x@ + pk.y@ + msg@);
    }
    let h = sha256_digest(&buf);
    let red = scalar_reduce(&h);
    Ok(Scalar { bytes: red })
}

/// Builds a canonical scalar from 32 bytes by reducing them modulo the group
/// order.  Fails with `EncodingError` exactly when the input does not have 32
/// bytes.
pub fn scalar_from_bytes(bytes: &Vec<u8>) -> (r: Result<Scalar, VerifyError>)
    ensures
        r is Ok <==> bytes@.len() == 32,
        r matches Ok(s) ==> s@ == reduce_of(bytes@) && scalar_canonical(s@),
        r matches Err(er) ==> er == VerifyError::EncodingError,
{
    if bytes.len() != 32 {
        return Err(VerifyError::EncodingError);
    }
    let red = scalar_reduce(bytes);
    Ok(Scalar { bytes: red })
}

} // verus!
