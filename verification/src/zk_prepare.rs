//! Batch export formatter: canonicalizes a batch of signatures, public keys
//! and messages into a transport-ready record — every scalar and coordinate
//! as a lowercase fixed-width hexadecimal string, messages as raw bytes —
//! preserving per-index alignment.  A verified hexadecimal decoder witnesses
//! that the encoding loses nothing.

use vstd::prelude::*;

verus! {

use vstd::string::StrSliceExecFns;

use crate::utils::PublicKey;
use crate::utils::SchnorrSignature;
use crate::utils::VerifyError;
use crate::utils::append_bytes;

/// The lowercase hexadecimal digit for a value below sixteen.
pub open spec fn hex_char(d: int) -> char {
    if d == 0 {
        '0'
    } else if d == 1 {
        '1'
    } else if d == 2 {
        '2'
    } else if d == 3 {
        '3'
    } else if d == 4 {
        '4'
    } else if d == 5 {
        '5'
    } else if d == 6 {
        '6'
    } else if d == 7 {
        '7'
    } else if d == 8 {
        '8'
    } else if d == 9 {
        '9'
    } else if d == 10 {
        'a'
    } else if d == 11 {
        'b'
    } else if d == 12 {
        'c'
    } else if d == 13 {
        'd'
    } else if d == 14 {
        'e'
    } else {
        'f'
    }
}

/// The value of a lowercase hexadecimal digit, or `-1` for any other
/// character.
pub open spec fn hex_val(c: char) -> int {
    if c == '0' {
        0
    } else if c == '1' {
        1
    } else if c == '2' {
        2
    } else if c == '3' {
        3
    } else if c == '4' {
        4
    } else if c == '5' {
        5
    } else if c == '6' {
        6
    } else if c == '7' {
        7
    } else if c == '8' {
        8
    } else if c == '9' {
        9
    } else if c == 'a' {
        10
    } else if c == 'b' {
        11
    } else if c == 'c' {
        12
    } else if c == 'd' {
        13
    } else if c == 'e' {
        14
    } else if c == 'f' {
        15
    } else {
        -1
    }
}

/// Whether `c` is a lowercase hexadecimal digit.
pub open spec fn is_hex_char(c: char) -> bool {
    hex_val(c) >= 0
}

/// The lowercase hexadecimal rendering of a byte string: two digits per
/// byte, high nibble first.
pub open spec fn hex_of(b: Seq<u8>) -> Seq<char> {
    Seq::new(
        b.len() * 2,
        |i: int|
            if i % 2 == 0 {
                hex_char((b[i / 2] / 16) as int)
            } else {
                hex_char((b[i / 2] % 16) as int)
            },
    )
}

/// The byte string a character sequence decodes to, when it is an
/// even-length string of lowercase hexadecimal digits; `None` otherwise.
pub open spec fn hex_decode_spec(s: Seq<char>) -> Option<Seq<u8>> {
    if s.len() % 2 == 0 && (forall|i: int| 0 <= i < s.len() ==> is_hex_char(s[i])) {
        Some(
            Seq::new(
                s.len() / 2,
                |i: int| (hex_val(s[2 * i]) * 16 + hex_val(s[2 * i + 1])) as u8,
            ),
        )
    } else {
        None
    }
}

/// A digit below sixteen renders to a hexadecimal character that decodes
/// back to it.
proof fn lemma_hex_char_val(d: int)
    requires
        0 <= d < 16,
    ensures
        is_hex_char(hex_char(d)),
        hex_val(hex_char(d)) == d,
{
}

/// Law: hexadecimal encoding round-trips — decoding the rendering of any
/// byte string reproduces it exactly.
pub proof fn lemma_hex_round_trip(b: Seq<u8>)
    ensures
        hex_decode_spec(hex_of(b)) == Some(b),
{
    let h = hex_of(b);
    assert(h.len() == 2 * b.len());
    assert forall|i: int| 0 <= i < h.len() implies is_hex_char(h[i]) by {
        lemma_hex_char_val(
            if i % 2 == 0 {
                (b[i / 2] / 16) as int
            } else {
                (b[i / 2] % 16) as int
            },
        );
    }
    let dec = hex_decode_spec(h)->Some_0;
    assert forall|i: int| 0 <= i < b.len() implies dec[i] == b[i] by {
        assert(h[2 * i] == hex_char((b[i] / 16) as int));
        assert(h[2 * i + 1] == hex_char((b[i] % 16) as int));
        lemma_hex_char_val((b[i] / 16) as int);
        lemma_hex_char_val((b[i] % 16) as int);
        assert((b[i] / 16) * 16 + b[i] % 16 == b[i]);
    }
    assert(dec =~= b);
}

/// The hexadecimal digit pair of one nibble value, executable side.
fn hex_nibble(c: char) -> (r: Option<u8>)
    ensures
        r is Some <==> is_hex_char(c),
        r matches Some(v) ==> v as int == hex_val(c) && v < 16,
{
    match c {
        '0' => Some(0u8),
        '1' => Some(1u8),
        '2' => Some(2u8),
        '3' => Some(3u8),
        '4' => Some(4u8),
        '5' => Some(5u8),
        '6' => Some(6u8),
        '7' => Some(7u8),
        '8' => Some(8u8),
        '9' => Some(9u8),
        'a' => Some(10u8),
        'b' => Some(11u8),
        'c' => Some(12u8),
        'd' => Some(13u8),
        'e' => Some(14u8),
        'f' => Some(15u8),
        _ => None,
    }
}

/// Decodes an even-length string of lowercase hexadecimal digits back to
/// bytes; any other string yields `None`.
pub fn decode_hex(s: &str) -> (r: Option<Vec<u8>>)
    ensures
        r is Some <==> hex_decode_spec(s@) is Some,
        r matches Some(v) ==> hex_decode_spec(s@) == Some(v@),
{
    let n = s.unicode_len();
    if n % 2 != 0 {
        return None;
    }
    let half = n / 2;
    let mut out: Vec<u8> = Vec::new();
    for j in 0..half
        invariant
            n == s@.len(),
            n % 2 == 0,
            half == n / 2,
            out@.len() == j,
            forall|k: int| 0 <= k < 2 * j ==> is_hex_char(s@[k]),
            forall|k: int|
                0 <= k < j ==> out@[k] == (hex_val(s@[2 * k]) * 16 + hex_val(s@[2 * k + 1])) as u8,
    {
        let c1 = s.get_char(2 * j);
        let c2 = s.get_char(2 * j + 1);
        let v1 = match hex_nibble(c1) {
            Some(v) => v,
            None => {
                return None;
            },
        };
        let v2 = match hex_nibble(c2) {
            Some(v) => v,
            None => {
                return None;
            },
        };
        out.push(v1 * 16 + v2);
    }
    proof {
        let spec_dec = hex_decode_spec(s@)->Some_0;
        assert(out@ =~= spec_dec);
    }
    Some(out)
}

/// One exported signature: the commitment's x-coordinate and the scalar `s`,
/// each as a lowercase hexadecimal string.
#[derive(Debug, Clone, PartialEq, Eq)]
pub struct ZKSignature {
    pub r_x: String,
    pub s: String,
}

/// One exported public key: both affine coordinates as lowercase
/// hexadecimal strings.
#[derive(Debug, Clone, PartialEq, Eq)]
pub struct ZKPublicKey {
    pub x: String,
    pub y: String,
}

/// A canonical, text-safe export of a batch, aligned index by index with the
/// batch it came from.
#[derive(Debug, Clone, PartialEq, Eq)]
pub struct ZKBatchExport {
    pub signatures: Vec<ZKSignature>,
    pub pubkeys: Vec<ZKPublicKey>,
    pub messages: Vec<Vec<u8>>,
}

/// The export is exactly the hexadecimal rendering of the batch, aligned
/// index by index, with the messages passed through unchanged.
pub open spec fn exported_matches(
    ex: ZKBatchExport,
    sigs: Seq<SchnorrSignature>,
    pks: Seq<PublicKey>,
    msgs: Seq<Vec<u8>>,
) -> bool {
    &&& ex.signatures@.len() == sigs.len()
    &&& ex.pubkeys@.len() == pks.len()
    &&& ex.messages@.len() == msgs.len()
    &&& forall|i: int|
        #![trigger ex.signatures@[i]]
        0 <= i < sigs.len() ==> ex.signatures@[i].r_x@ == hex_of(sigs[i].r.x@)
            && ex.signatures@[i].s@ == hex_of(sigs[i].s@)
    &&& forall|i: int|
        #![trigger ex.pubkeys@[i]]
        0 <= i < pks.len() ==> ex.pubkeys@[i].x@ == hex_of(pks[i].x@) && ex.pubkeys@[i].y@
            == hex_of(pks[i].y@)
    &&& forall|i: int| #![trigger ex.messages@[i]] 0 <= i < msgs.len() ==> ex.messages@[i]@
        == msgs[i]@
}

/// Relies on `hex::encode`: each byte becomes two lowercase hexadecimal
/// digits, high nibble first.
#[verifier::external_body]
fn hex_string(b: &Vec<u8>) -> (r: String)
    ensures
        r@ == hex_of(b@),
{
    hex::encode(b.as_slice())
}

/// A fresh copy of a byte vector.
fn copy_bytes(src: &Vec<u8>) -> (r: Vec<u8>)
    ensures
        r@ == src@,
{
    let mut v: Vec<u8> = Vec::new();
    append_bytes(&mut v, src);
    proof {
        assert(v@ =~= src@);
    }
    v
}

/// Canonicalizes a batch for the proof-generation consumer: every scalar and
/// coordinate as a lowercase hexadecimal string, messages as raw bytes, all
/// aligned index by index.  Fails fast with `LengthMismatch` when the three
/// sequences differ in length.  This formatter does not verify the batch;
/// running verification first is the calling workflow's responsibility.
pub fn export_batch_for_zk(
    signatures: &Vec<SchnorrSignature>,
    pubkeys: &Vec<PublicKey>,
    messages: &Vec<Vec<u8>>,
) -> (r: Result<ZKBatchExport, VerifyError>)
    ensures
        r is Ok <==> (signatures@.len() == pubkeys@.len() && signatures@.len() == messages@.len()),
        r matches Err(e) ==> e == VerifyError::LengthMismatch,
        r matches Ok(ex) ==> exported_matches(ex, signatures@, pubkeys@, messages@),
{
    if signatures.len() != pubkeys.len() || signatures.len() != messages.len() {
        return Err(VerifyError::LengthMismatch);
    }
    let mut zk_sigs: Vec<ZKSignature> = Vec::new();
    for i in 0..signatures.len()
        invariant
            zk_sigs@.len() == i,
            forall|k: int|
                #![trigger zk_sigs@[k]]
                0 <= k < i ==> zk_sigs@[k].r_x@ == hex_of(signatures@[k].r.x@) && zk_sigs@[k].s@
                    == hex_of(signatures@[k].s@),
    {
        let r_x = hex_string(&signatures[i].r.x);
        let s = hex_string(&signatures[i].s.bytes);
        zk_sigs.push(ZKSignature { r_x, s });
    }
    let mut zk_keys: Vec<ZKPublicKey> = Vec::new();
    for i in 0..pubkeys.len()
        invariant
            zk_keys@.len() == i,
            forall|k: int|
                #![trigger zk_keys@[k]]
                0 <= k < i ==> zk_keys@[k].x@ == hex_of(pubkeys@[k].x@) && zk_keys@[k].y@
                    == hex_of(pubkeys@[k].y@),
    {
        let x = hex_string(&pubkeys[i].x);
        let y = hex_string(&pubkeys[i].y);
        zk_keys.push(ZKPublicKey { x, y });
    }
    let mut zk_msgs: Vec<Vec<u8>> = Vec::new();
    for i in 0..messages.len()
        invariant
            zk_msgs@.len() == i,
            forall|k: int| #![trigger zk_msgs@[k]] 0 <= k < i ==> zk_msgs@[k]@ == messages@[k]@,
    {
        zk_msgs.push(copy_bytes(&messages[i]));
    }
    Ok(ZKBatchExport { signatures: zk_sigs, pubkeys: zk_keys, messages: zk_msgs })
}

/// Law: decoding the hexadecimal fields of an exported batch reproduces the
/// original scalar and coordinate bytes exactly.
pub proof fn lemma_export_round_trip(
    ex: ZKBatchExport,
    sigs: Seq<SchnorrSignature>,
    pks: Seq<PublicKey>,
    msgs: Seq<Vec<u8>>,
)
    requires
        exported_matches(ex, sigs, pks, msgs),
    ensures
        forall|i: int|
            #![trigger ex.signatures@[i]]
            0 <= i < sigs.len() ==> hex_decode_spec(ex.signatures@[i].r_x@) == Some(sigs[i].r.x@)
                && hex_decode_spec(ex.signatures@[i].s@) == Some(sigs[i].s@),
        forall|i: int|
            #![trigger ex.pubkeys@[i]]
            0 <= i < pks.len() ==> hex_decode_spec(ex.pubkeys@[i].x@) == Some(pks[i].x@)
                && hex_decode_spec(ex.pubkeys@[i].y@) == Some(pks[i].y@),
{
    assert forall|i: int|
        0 <= i < sigs.len() implies hex_decode_spec(#[trigger] ex.signatures@[i].r_x@) == Some(
        sigs[i].r.x@,
    ) && hex_decode_spec(ex.signatures@[i].s@) == Some(sigs[i].s@) by {
        lemma_hex_round_trip(sigs[i].r.x@);
        lemma_hex_round_trip(sigs[i].s@);
    }
    assert forall|i: int|
        0 <= i < pks.len() implies hex_decode_spec(#[trigger] ex.pubkeys@[i].x@) == Some(pks[i].x@)
        && hex_decode_spec(ex.pubkeys@[i].y@) == Some(pks[i].y@) by {
        lemma_hex_round_trip(pks[i].x@);
        lemma_hex_round_trip(pks[i].y@);
    }
}

} // verus!
