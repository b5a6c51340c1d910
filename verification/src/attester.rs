//! Attestation via Tenzro crypto + identity.
//!
//! Receipts and artefact digests are signed with a Tenzro-managed private
//! key; the resulting attestation's `proof` carries the Tenzro signature and
//! the signer's public key, JSON-encoded, so that a third party can re-check
//! it. The signing key comes from `TENZRO_SIGNING_KEY` (hex, no `0x`).
//! Verifying reads the signature and key back from the proof
//! (`verification_request`), exactly as `encode_proof` wrote them, and hands
//! them to the verifier.
//!
//! A receipt is canonicalised to JSON bytes by the caller; its digest is the
//! BLAKE3 hash of those bytes (`receipt_digest`).

use vstd::prelude::*;
use vstd::utf8::{decode_utf8, encode_utf8};

use crate::client::TenzroHandle;
use crate::crypto::{blake3_32, blake3_digest};
use crate::error::{is_config_error, TenzroEdgeError};
use crate::sdk::{sdk_debug, SdkFailure};
use crate::text::{
    json_escaped, json_quoted, json_string, json_unescape_until_quote, lemma_unescape_escaped,
    lemma_unescape_sound, starts_with, str_eq, str_from_utf8, unescape_from,
};

verus! {

/// The `kind` of every attestation this attester makes.
pub const ATTESTATION_KIND: &'static str = "tenzro";

/// A signature over a receipt digest, with what is needed to check it.
#[derive(Clone, Debug)]
pub struct Attestation {
    /// Which attester made it (`"tenzro"` here).
    pub kind: String,
    /// The signed 32-byte digest.
    pub digest: [u8; 32],
    /// Attester-specific proof bytes.
    pub proof: Vec<u8>,
}

/// Why signing or verifying failed.
#[derive(Clone, Debug)]
pub enum AttesterError {
    /// The network path failed; retrying may help.
    Transient(String),
    /// The operation failed.
    Failed(String),
    /// The attestation does not verify.
    Invalid,
}

/// Map an SDK failure into the attester's errors: link failures and
/// timeouts are transient; everything else fails.
pub fn map_sdk(e: SdkFailure) -> (res: AttesterError)
    ensures
        match e {
            SdkFailure::ConnectionError(s) => res matches AttesterError::Transient(m) && m@ == s@,
            SdkFailure::RpcError(s) => res matches AttesterError::Transient(m) && m@ == s@,
            SdkFailure::Timeout => res matches AttesterError::Transient(m) && m@ == "timeout"@,
            SdkFailure::AuthenticationError(s) => res matches AttesterError::Failed(m) && m@
                == "auth: "@ + s@,
            _ => res matches AttesterError::Failed(m) && m@ == sdk_debug(e),
        },
{
    match e {
        SdkFailure::ConnectionError(s) => AttesterError::Transient(s),
        SdkFailure::RpcError(s) => AttesterError::Transient(s),
        SdkFailure::Timeout => AttesterError::Transient(String::from_str("timeout")),
        SdkFailure::AuthenticationError(s) => {
            let mut m = String::from_str("auth: ");
            m.append(s.as_str());
            AttesterError::Failed(m)
        },
        other => AttesterError::Failed(other.debug_text()),
    }
}

/// The digest of a canonicalised receipt: BLAKE3 of its JSON bytes.
pub fn receipt_digest(canonical: &[u8]) -> (res: [u8; 32])
    ensures
        res@ == blake3_digest(canonical@),
{
    blake3_32(canonical)
}

/// JSON of the proof carried in a Tenzro attestation:
/// `{"signature":...,"public_key":...}`.
pub open spec fn proof_json(signature: Seq<char>, public_key: Seq<char>) -> Seq<char> {
    "{\"signature\":"@ + json_quoted(signature) + ",\"public_key\":"@ + json_quoted(public_key)
        + "}"@
}

/// The proof bytes: the signature and the signer public key, JSON-encoded.
pub fn encode_proof(signature: &str, public_key: &str) -> (res: Vec<u8>)
    ensures
        res@ == encode_utf8(proof_json(signature@, public_key@)),
{
    let mut text = String::from_str("{\"signature\":");
    text.append(json_string(signature).as_str());
    text.append(",\"public_key\":");
    text.append(json_string(public_key).as_str());
    text.append("}");
    text.as_str().as_bytes_vec()
}

/// The attestation for a digest signed by Tenzro.
pub fn attestation_from_signature(digest: [u8; 32], signature: &str, public_key: &str) -> (res:
    Attestation)
    ensures
        res.kind@ == "tenzro"@,
        res.digest == digest,
        res.proof@ == encode_utf8(proof_json(signature@, public_key@)),
{
    Attestation {
        kind: String::from_str(ATTESTATION_KIND),
        digest,
        proof: encode_proof(signature, public_key),
    }
}

/// How a proof's text begins: `{"signature":"`.
pub open spec fn proof_head() -> Seq<char> {
    "{\"signature\":\""@
}

/// What stands between the two fields: `","public_key":"`.
pub open spec fn proof_middle() -> Seq<char> {
    "\",\"public_key\":\""@
}

/// How a proof's text ends: `"}`.
pub open spec fn proof_tail() -> Seq<char> {
    "\"}"@
}

/// The signature and public key a proof's text carries, read back as
/// `encode_proof` writes them; `None` for any other text.
pub open spec fn proof_fields(t: Seq<char>) -> Option<(Seq<char>, Seq<char>)> {
    if t.len() >= 14 && t.subrange(0, 14) == proof_head() {
        match json_unescape_until_quote(t.subrange(14, t.len() as int)) {
            Some((sig, j)) => {
                let i = 14 + j;
                if i + 16 <= t.len() && t.subrange(i, i + 16) == proof_middle() {
                    match json_unescape_until_quote(t.subrange(i + 16, t.len() as int)) {
                        Some((key, j2)) => if t.subrange(i + 16 + j2, t.len() as int)
                            == proof_tail() {
                            Some((sig, key))
                        } else {
                            None
                        },
                        None => None,
                    }
                } else {
                    None
                }
            },
            None => None,
        }
    } else {
        None
    }
}

proof fn lemma_proof_json_parts(sig: Seq<char>, key: Seq<char>)
    ensures
        proof_json(sig, key) == proof_head() + json_escaped(sig) + proof_middle() + json_escaped(
            key,
        ) + proof_tail(),
        proof_head().len() == 14,
        proof_middle().len() == 16,
        proof_tail().len() == 2,
{
    reveal_strlit("{\"signature\":\"");
    reveal_strlit("\",\"public_key\":\"");
    reveal_strlit("\"}");
    reveal_strlit("{\"signature\":");
    reveal_strlit(",\"public_key\":");
    reveal_strlit("}");
    assert(proof_json(sig, key) =~= proof_head() + json_escaped(sig) + proof_middle()
        + json_escaped(key) + proof_tail());
}

/// Reading a proof back gives the signature and public key written into it.
pub proof fn law_proof_round_trip(sig: Seq<char>, key: Seq<char>)
    ensures
        proof_fields(proof_json(sig, key)) == Some((sig, key)),
{
    lemma_proof_json_parts(sig, key);
    let h = proof_head();
    let m = proof_middle();
    let tl = proof_tail();
    let e1 = json_escaped(sig);
    let e2 = json_escaped(key);
    let t = proof_json(sig, key);
    reveal_strlit("\",\"public_key\":\"");
    reveal_strlit("\"}");
    assert(t =~= h + e1 + m + e2 + tl);
    assert(t.subrange(0, 14) =~= h);
    let r1 = m.drop_first() + e2 + tl;
    assert(t.subrange(14, t.len() as int) =~= e1 + seq!['"'] + r1);
    lemma_unescape_escaped(sig, r1);
    let i: int = 14 + e1.len() as int;
    assert(t.subrange(i, i + 16) =~= m);
    let r2 = seq!['}'];
    assert(t.subrange(i + 16, t.len() as int) =~= e2 + seq!['"'] + r2);
    lemma_unescape_escaped(key, r2);
    assert(t.subrange(i + 16 + e2.len() as int, t.len() as int) =~= tl);
}

/// Only the text of a written proof is read back: whatever is read back is
/// the proof of the fields read.
pub proof fn lemma_proof_fields_sound(t: Seq<char>)
    requires
        proof_fields(t) is Some,
    ensures
        proof_fields(t) matches Some((sig, key)) && t == proof_json(sig, key),
{
    let (sig, key) = proof_fields(t)->0;
    lemma_proof_json_parts(sig, key);
    let t1 = t.subrange(14, t.len() as int);
    lemma_unescape_sound(t1);
    let (d1, j) = json_unescape_until_quote(t1)->0;
    let i = 14 + j;
    let t2 = t.subrange(i + 16, t.len() as int);
    lemma_unescape_sound(t2);
    let (d2, j2) = json_unescape_until_quote(t2)->0;
    assert(t.subrange(14, i) =~= t1.subrange(0, j));
    assert(t.subrange(i + 16, i + 16 + j2) =~= t2.subrange(0, j2));
    assert(t =~= t.subrange(0, 14) + t.subrange(14, i) + t.subrange(i, i + 16) + t.subrange(
        i + 16,
        i + 16 + j2,
    ) + t.subrange(i + 16 + j2, t.len() as int));
}

fn proof_fields_of(text: &str) -> (res: Option<(String, String)>)
    ensures
        match proof_fields(text@) {
            Some((sig, key)) => res matches Some((x, y)) && x@ == sig && y@ == key,
            None => res is None,
        },
{
    proof {
        reveal_strlit("{\"signature\":\"");
        reveal_strlit("\",\"public_key\":\"");
        reveal_strlit("\"}");
    }
    let n = text.unicode_len();
    if !starts_with(text, "{\"signature\":\"") {
        return None;
    }
    let (sig, i) = match unescape_from(text, 14) {
        Some(r) => r,
        None => {
            return None;
        },
    };
    proof {
        lemma_unescape_sound(text@.subrange(14, n as int));
    }
    if n - i < 16 {
        return None;
    }
    if !str_eq(text.substring_char(i, i + 16), "\",\"public_key\":\"") {
        return None;
    }
    let (key, i2) = match unescape_from(text, i + 16) {
        Some(r) => r,
        None => {
            return None;
        },
    };
    proof {
        lemma_unescape_sound(text@.subrange(i + 16, n as int));
    }
    if !str_eq(text.substring_char(i2, n), "\"}") {
        return None;
    }
    Some((sig, key))
}

/// Read a proof's bytes back into the signature and public key they carry.
/// It succeeds exactly on the bytes `encode_proof` writes, and then gives
/// back what was written.
pub fn decode_proof(proof: &[u8]) -> (res: Option<(String, String)>)
    ensures
        res matches Some((sig, key)) ==> proof@ == encode_utf8(proof_json(sig@, key@)),
        forall|sig: Seq<char>, key: Seq<char>|
            proof@ == #[trigger] encode_utf8(proof_json(sig, key)) ==> (res matches Some((x, y))
                && x@ == sig && y@ == key),
{
    let text = match str_from_utf8(proof) {
        Some(t) => t,
        None => {
            assert forall|sig: Seq<char>, key: Seq<char>|
                proof@ == #[trigger] encode_utf8(proof_json(sig, key)) implies false by {
                let c = proof_json(sig, key);
                assert(encode_utf8(c) == proof@);
            }
            return None;
        },
    };
    let res = proof_fields_of(text);
    proof {
        broadcast use vstd::utf8::encode_utf8_decode_utf8;

        if res is Some {
            lemma_proof_fields_sound(text@);
        }
        assert forall|sig: Seq<char>, key: Seq<char>|
            proof@ == #[trigger] encode_utf8(proof_json(sig, key)) implies (res matches Some((x, y))
                && x@ == sig && y@ == key) by {
            assert(decode_utf8(encode_utf8(text@)) == text@);
            assert(decode_utf8(encode_utf8(proof_json(sig, key))) == proof_json(sig, key));
            law_proof_round_trip(sig, key);
        }
    }
    res
}

/// The message of the error for an attestation of another kind.
pub open spec fn kind_mismatch_text(kind: Seq<char>) -> Seq<char> {
    "kind mismatch: expected 'tenzro', got '"@ + kind + "'"@
}

/// An attestation of another kind than `"tenzro"` cannot be verified here.
pub fn check_kind(att: &Attestation) -> (res: Result<(), AttesterError>)
    ensures
        res is Ok <==> att.kind@ == "tenzro"@,
        res matches Err(e) ==> e matches AttesterError::Failed(m) && m@ == kind_mismatch_text(
            att.kind@,
        ),
{
    if crate::text::str_eq(att.kind.as_str(), ATTESTATION_KIND) {
        Ok(())
    } else {
        let mut m = String::from_str("kind mismatch: expected 'tenzro', got '");
        m.append(att.kind.as_str());
        m.append("'");
        Err(AttesterError::Failed(m))
    }
}

/// The message when a Tenzro attestation's proof cannot be read back.
pub open spec fn undecodable_proof_text() -> Seq<char> {
    "decode proof: not a Tenzro proof"@
}

/// What verifying an attestation asks of the verifier: the signature and
/// public key read back from its proof. An attestation of another kind, or a
/// proof that is not what `encode_proof` writes, fails; the proof of an
/// attestation made by `attestation_from_signature` gives back the signature
/// and key it was made with.
pub fn verification_request(att: &Attestation) -> (res: Result<(String, String), AttesterError>)
    ensures
        att.kind@ != "tenzro"@ ==> (res matches Err(AttesterError::Failed(m)) && m@
            == kind_mismatch_text(att.kind@)),
        att.kind@ == "tenzro"@ ==> match res {
            Ok((sig, key)) => att.proof@ == encode_utf8(proof_json(sig@, key@)),
            Err(e) => e matches AttesterError::Failed(m) && m@ == undecodable_proof_text(),
        },
        forall|sig: Seq<char>, key: Seq<char>|
            att.kind@ == "tenzro"@ && att.proof@ == #[trigger] encode_utf8(proof_json(sig, key))
                ==> (res matches Ok((x, y)) && x@ == sig && y@ == key),
{
    check_kind(att)?;
    match decode_proof(att.proof.as_slice()) {
        Some(fields) => Ok(fields),
        None => Err(AttesterError::Failed(String::from_str("decode proof: not a Tenzro proof"))),
    }
}

/// The outcome of verification given the verifier's verdict.
pub fn verification_outcome(valid: bool) -> (res: Result<(), AttesterError>)
    ensures
        res is Ok <==> valid,
        res matches Err(e) ==> e is Invalid,
{
    if valid {
        Ok(())
    } else {
        Err(AttesterError::Invalid)
    }
}


/// Attester backed by Tenzro crypto signing.
pub struct TenzroAttester {
    id: String,
    handle: TenzroHandle,
    private_key_hex: String,
}

impl TenzroAttester {
    /// The handle it works through.
    pub closed spec fn handle_view(&self) -> TenzroHandle {
        self.handle
    }

    /// The attester's id.
    pub closed spec fn id_view(&self) -> Seq<char> {
        self.id@
    }

    /// The hex private key it signs with.
    pub closed spec fn key_view(&self) -> Seq<char> {
        self.private_key_hex@
    }

    /// Construct a Tenzro attester from the value of `TENZRO_SIGNING_KEY`
    /// (hex, no `0x` prefix), which is required.
    pub fn new(id: String, handle: TenzroHandle, signing_key: Option<String>) -> (res: Result<
        Self,
        TenzroEdgeError,
    >)
        ensures
            match signing_key {
                Some(k) => res matches Ok(a) && a.id_view() == id@ && a.key_view() == k@
                    && a.handle_view() == handle,
                None => res matches Err(e) && is_config_error(
                    e,
                    "TENZRO_SIGNING_KEY is required for TenzroAttester"@,
                ),
            },
    {
        match signing_key {
            Some(private_key_hex) => Ok(TenzroAttester { id, handle, private_key_hex }),
            None => Err(
                TenzroEdgeError::Config(
                    String::from_str("TENZRO_SIGNING_KEY is required for TenzroAttester"),
                ),
            ),
        }
    }

    /// The attester's id.
    pub fn id(&self) -> (res: String)
        ensures
            res@ == self.id_view(),
    {
        self.id.clone()
    }

    /// The hex private key it signs with.
    pub fn private_key_hex(&self) -> (res: &str)
        ensures
            res@ == self.key_view(),
    {
        self.private_key_hex.as_str()
    }

    /// The handle it signs through.
    pub fn handle(&self) -> (res: &TenzroHandle)
        ensures
            *res == self.handle_view(),
    {
        &self.handle
    }
}

} // verus!
