//! The digest and signature checks. The canonical bytes of an event are
//! hashed with SHA3-256 and compared to the declared digest, and the Ed25519
//! signature is checked strictly over the same bytes. The outside
//! computations — the digest itself, base64 decoding, and the curve
//! arithmetic — are taken on trust from their crates; everything around them
//! is verified.

use vstd::prelude::*;

use base64::Engine;
use sha3::Digest;

use crate::canonical::{build_canonical_form, canonical_spec};
use crate::errors::{ProofDefect, VerifyError};
use crate::event::FactoEvent;

verus! {

/// The SHA3-256 digest of a byte string. Named, not written out: the
/// verified code relies on the sha3 crate to compute it.
pub uninterp spec fn sha3_256_of(data: Seq<u8>) -> Seq<u8>;

/// Relies on sha3::Sha3_256 (through its Digest trait): the digest is a
/// function of the input bytes alone and is exactly 32 bytes long.
#[verifier::external_body]
fn sha3_256(data: &[u8]) -> (r: Vec<u8>)
    ensures
        r@ == sha3_256_of(data@),
        r@.len() == 32,
{
    let mut hasher = sha3::Sha3_256::new();
    hasher.update(data);
    hasher.finalize().to_vec()
}

/// One lowercase hexadecimal digit, as a character.
pub open spec fn hex_char(n: u8) -> char
    recommends
        n < 16,
{
    if n < 10 {
        ((0x30 + n) as u8) as char
    } else {
        ((0x57 + n) as u8) as char
    }
}

/// Lowercase hexadecimal encoding: two digits per byte, most significant
/// digit first.
pub open spec fn hex_of(b: Seq<u8>) -> Seq<char>
    decreases b.len(),
{
    if b.len() == 0 {
        Seq::empty()
    } else {
        hex_of(b.drop_last()) + seq![hex_char(b.last() / 16), hex_char(b.last() % 16)]
    }
}

/// Relies on hex::encode: lowercase hexadecimal, two digits per input byte.
#[verifier::external_body]
fn hex_encode(b: &[u8]) -> (r: String)
    ensures
        r@ == hex_of(b@),
{
    hex::encode(b)
}

/// The hex-encoded SHA3-256 digest of a byte string.
pub open spec fn hash_hex(data: Seq<u8>) -> Seq<char> {
    hex_of(sha3_256_of(data))
}

/// Computes the digest of a canonical form, as 64 lowercase hex characters.
pub fn compute_event_hash(canonical: &[u8]) -> (r: String)
    ensures
        r@ == hash_hex(canonical@),
        r@.len() == 64,
        forall|i: int| 0 <= i < r@.len() ==> is_lower_hex(#[trigger] r@[i]),
{
    let digest = sha3_256(canonical);
    let r = hex_encode(digest.as_slice());
    proof {
        lemma_hex_of_format(digest@);
    }
    r
}

/// A character is a lowercase hexadecimal digit.
pub open spec fn is_lower_hex(c: char) -> bool {
    (0x30 <= c as u32 && c as u32 <= 0x39) || (0x61 <= c as u32 && c as u32 <= 0x66)
}

/// Hex encoding yields two lowercase hexadecimal digits per byte.
pub proof fn lemma_hex_of_format(b: Seq<u8>)
    ensures
        hex_of(b).len() == 2 * b.len(),
        forall|i: int| 0 <= i < hex_of(b).len() ==> is_lower_hex(#[trigger] hex_of(b)[i]),
    decreases b.len(),
{
    if b.len() > 0 {
        lemma_hex_of_format(b.drop_last());
        assert(b.last() / 16 < 16);
        assert(b.last() % 16 < 16);
    }
}

/// Whether the declared digest of an event matches the digest of its
/// canonical form.
pub open spec fn hash_matches(e: FactoEvent) -> bool {
    hash_hex(canonical_spec(e)) == e.proof.event_hash@
}

/// Recomputes the digest over the canonical form and compares it with the
/// declared one; inequality is a `HashMismatch`.
pub fn verify_hash(event: &FactoEvent) -> (r: Result<(), VerifyError>)
    ensures
        r == if hash_matches(*event) {
            Result::<(), VerifyError>::Ok(())
        } else {
            Result::<(), VerifyError>::Err(VerifyError::HashMismatch)
        },
{
    let canonical = build_canonical_form(event);
    let computed = compute_event_hash(canonical.as_slice());
    if computed == event.proof.event_hash {
        Ok(())
    } else {
        Err(VerifyError::HashMismatch)
    }
}

/// What decoding a base64 text yields: the decoded bytes, or nothing when
/// the text is not valid standard-alphabet base64. Named, not written out:
/// the verified code relies on the base64 crate to compute it.
pub uninterp spec fn base64_decode_of(s: Seq<char>) -> Option<Seq<u8>>;

/// Relies on base64's standard engine (padded alphabet): decoding is a
/// function of the text alone; invalid text is reported, not panicked on.
#[verifier::external_body]
fn base64_decode(s: &str) -> (r: Option<Vec<u8>>)
    ensures
        match r {
            Some(v) => base64_decode_of(s@) == Some(v@),
            None => base64_decode_of(s@) is None,
        },
{
    base64::engine::general_purpose::STANDARD.decode(s).ok()
}

/// The outcome of the strict Ed25519 check on raw key, message and
/// signature bytes.
pub enum SigVerdict {
    Valid,
    Invalid,
    BadKey,
}

/// Whether 32 bytes decode to a valid Ed25519 verifying key. Named: the
/// verified code relies on ed25519_dalek to decide it.
pub uninterp spec fn ed25519_key_ok(pk: Seq<u8>) -> bool;

/// Whether a signature checks strictly over a message under a key. Named:
/// the verified code relies on ed25519_dalek to decide it.
pub uninterp spec fn ed25519_sig_ok(pk: Seq<u8>, msg: Seq<u8>, sig: Seq<u8>) -> bool;

/// Relies on ed25519_dalek::VerifyingKey::from_bytes (whether the 32 key
/// bytes are a valid curve point) and VerifyingKey::verify_strict (whether
/// the signature checks under the strict, non-malleable rules): both are
/// functions of the bytes alone.
#[verifier::external_body]
fn ed25519_check(pk: &[u8], msg: &[u8], sig: &[u8]) -> (r: SigVerdict)
    requires
        pk@.len() == 32,
        sig@.len() == 64,
    ensures
        (r is BadKey) == !ed25519_key_ok(pk@),
        !(r is BadKey) ==> ((r is Valid) == ed25519_sig_ok(pk@, msg@, sig@)),
{
    let pk_arr: [u8; 32] = pk.try_into().unwrap();
    let sig_arr: [u8; 64] = sig.try_into().unwrap();
    let key = match ed25519_dalek::VerifyingKey::from_bytes(&pk_arr) {
        Ok(k) => k,
        Err(_) => return SigVerdict::BadKey,
    };
    let signature = ed25519_dalek::Signature::from_bytes(&sig_arr);
    match key.verify_strict(msg, &signature) {
        Ok(()) => SigVerdict::Valid,
        Err(_) => SigVerdict::Invalid,
    }
}

/// The exact outcome of the signature check on an event: first the shape of
/// the proof (decodable base64, 32 key bytes, 64 signature bytes, a valid
/// key point — `MalformedProof`), then the strict signature check over the
/// canonical bytes (`InvalidSignature` on failure).
pub open spec fn signature_verdict(e: FactoEvent) -> Result<(), VerifyError> {
    match base64_decode_of(e.proof.public_key@) {
        None => Err(VerifyError::MalformedProof(ProofDefect::Encoding)),
        Some(pk) => if pk.len() != 32 {
            Err(VerifyError::MalformedProof(ProofDefect::Length))
        } else {
            match base64_decode_of(e.proof.signature@) {
                None => Err(VerifyError::MalformedProof(ProofDefect::Encoding)),
                Some(sg) => if sg.len() != 64 {
                    Err(VerifyError::MalformedProof(ProofDefect::Length))
                } else if !ed25519_key_ok(pk) {
                    Err(VerifyError::MalformedProof(ProofDefect::Encoding))
                } else if ed25519_sig_ok(pk, canonical_spec(e), sg) {
                    Ok(())
                } else {
                    Err(VerifyError::InvalidSignature)
                },
            }
        },
    }
}

/// Decodes the embedded key and signature and checks the signature strictly
/// over the canonical bytes.
pub fn verify_signature(event: &FactoEvent) -> (r: Result<(), VerifyError>)
    ensures
        r == signature_verdict(*event),
{
    let pk = match base64_decode(event.proof.public_key.as_str()) {
        Some(v) => v,
        None => return Err(VerifyError::MalformedProof(ProofDefect::Encoding)),
    };
    if pk.len() != 32 {
        return Err(VerifyError::MalformedProof(ProofDefect::Length));
    }
    let sg = match base64_decode(event.proof.signature.as_str()) {
        Some(v) => v,
        None => return Err(VerifyError::MalformedProof(ProofDefect::Encoding)),
    };
    if sg.len() != 64 {
        return Err(VerifyError::MalformedProof(ProofDefect::Length));
    }
    let canonical = build_canonical_form(event);
    match ed25519_check(pk.as_slice(), canonical.as_slice(), sg.as_slice()) {
        SigVerdict::BadKey => Err(VerifyError::MalformedProof(ProofDefect::Encoding)),
        SigVerdict::Valid => Ok(()),
        SigVerdict::Invalid => Err(VerifyError::InvalidSignature),
    }
}

} // verus!
