//! DPoP (RFC 9449) proof minting for privileged Tenzro RPCs.
//!
//! A DPoP proof is a JWS in compact form: three base64url segments joined by
//! `.`. The header carries the holder's public key as a JWK, the payload the
//! HTTP method (`htm`), URL (`htu`), issue time (`iat`) and a random nonce
//! (`jti`); the third segment is the Ed25519 signature of the first two.
//!
//! The JSON texts are written with sorted keys and no whitespace:
//!
//! ```text
//! header:  {"alg":"EdDSA","jwk":{"crv":"Ed25519","kty":"OKP","x":<key>},"typ":"dpop+jwt"}
//! payload: {"htm":<method>,"htu":<url>,"iat":<seconds>,"jti":<hex nonce>}
//! ```

use vstd::prelude::*;
use vstd::utf8::encode_utf8;

use crate::codec::{b64url, b64url_encode, lemma_b64_injective, lemma_b64_nopad_len, lemma_b64url_has_no_dot};
use crate::crypto::{
    ed25519_public, ed25519_public_key, ed25519_sign, ed25519_signature, ed25519_valid, generate_seed,
    random_16, sha256_32, sha256_digest, unix_seconds_now,
};
use crate::error::{is_config_error, TenzroEdgeError};
use crate::text::{
    decimal, hex_digit, hex_encode, hex_lower, json_escaped, json_plain, json_quoted, json_string,
    lemma_decimal_injective, lemma_hex_injective, lemma_json_escaped_plain, u64_text,
};

verus! {

/// RFC 7638 canonical JWK of an Ed25519 public key: members in lexicographic
/// order, no whitespace.
pub open spec fn canonical_jwk(public_key: Seq<u8>) -> Seq<char> {
    "{\"crv\":\"Ed25519\",\"kty\":\"OKP\",\"x\":\""@ + b64url(public_key) + "\"}"@
}

/// RFC 7638 JWK thumbprint (`jkt`) of an Ed25519 public key: base64url of
/// the SHA-256 of the canonical JWK.
pub open spec fn jwk_thumbprint_spec(public_key: Seq<u8>) -> Seq<char> {
    b64url(sha256_digest(encode_utf8(canonical_jwk(public_key))))
}

/// The DPoP header JSON for a holder key.
pub open spec fn dpop_header(public_key: Seq<u8>) -> Seq<char> {
    "{\"alg\":\"EdDSA\",\"jwk\":{\"crv\":\"Ed25519\",\"kty\":\"OKP\",\"x\":"@ + json_quoted(
        b64url(public_key),
    ) + "},\"typ\":\"dpop+jwt\"}"@
}

/// The DPoP payload JSON: method, URL, issue time and nonce.
pub open spec fn dpop_payload(htm: Seq<char>, htu: Seq<char>, iat: u64, jti: Seq<u8>) -> Seq<
    char,
> {
    "{\"htm\":"@ + json_quoted(htm) + ",\"htu\":"@ + json_quoted(htu) + ",\"iat\":"@ + decimal(
        iat as nat,
    ) + ",\"jti\":"@ + json_quoted(hex_lower(jti)) + "}"@
}

/// First segment: the encoded header of the key derived from `seed`.
pub open spec fn dpop_header_segment(seed: Seq<u8>) -> Seq<char> {
    b64url(encode_utf8(dpop_header(ed25519_public(seed))))
}

/// Second segment: the encoded payload.
pub open spec fn dpop_payload_segment(htm: Seq<char>, htu: Seq<char>, iat: u64, jti: Seq<u8>) -> Seq<
    char,
> {
    b64url(encode_utf8(dpop_payload(htm, htu, iat, jti)))
}

/// The signing input: the first two segments joined by `.`.
pub open spec fn dpop_signing_input(
    seed: Seq<u8>,
    htm: Seq<char>,
    htu: Seq<char>,
    iat: u64,
    jti: Seq<u8>,
) -> Seq<char> {
    dpop_header_segment(seed) + "."@ + dpop_payload_segment(htm, htu, iat, jti)
}

/// Third segment: the encoded signature of the signing input.
pub open spec fn dpop_signature_segment(
    seed: Seq<u8>,
    htm: Seq<char>,
    htu: Seq<char>,
    iat: u64,
    jti: Seq<u8>,
) -> Seq<char> {
    b64url(ed25519_signature(seed, encode_utf8(dpop_signing_input(seed, htm, htu, iat, jti))))
}

/// The Ed25519 signature a proof carries, over its signing input.
pub open spec fn dpop_signature(
    seed: Seq<u8>,
    htm: Seq<char>,
    htu: Seq<char>,
    iat: u64,
    jti: Seq<u8>,
) -> Seq<u8> {
    ed25519_signature(seed, encode_utf8(dpop_signing_input(seed, htm, htu, iat, jti)))
}

/// The proof checks out on its own: its signature is 64 bytes and verifies
/// under the signer's public key over the first two segments.
pub open spec fn dpop_self_verifies(
    seed: Seq<u8>,
    htm: Seq<char>,
    htu: Seq<char>,
    iat: u64,
    jti: Seq<u8>,
) -> bool {
    &&& dpop_signature(seed, htm, htu, iat, jti).len() == 64
    &&& ed25519_valid(
        ed25519_public(seed),
        encode_utf8(dpop_signing_input(seed, htm, htu, iat, jti)),
        dpop_signature(seed, htm, htu, iat, jti),
    )
}

/// The compact DPoP proof JWT.
pub open spec fn dpop_proof(
    seed: Seq<u8>,
    htm: Seq<char>,
    htu: Seq<char>,
    iat: u64,
    jti: Seq<u8>,
) -> Seq<char> {
    dpop_signing_input(seed, htm, htu, iat, jti) + "."@ + dpop_signature_segment(
        seed,
        htm,
        htu,
        iat,
        jti,
    )
}

/// The message of the error `mint_proof` reports when the clock reads
/// before the Unix epoch.
pub open spec fn clock_error_text() -> Seq<char> {
    "system clock pre-epoch: second time provided was later than self"@
}

/// RFC 7638 §3 JWK thumbprint of an Ed25519 public key.
pub fn jwk_thumbprint_ed25519(key: &[u8; 32]) -> (res: String)
    ensures
        res@ == jwk_thumbprint_spec(key@),
        res@.len() == 43,
{
    let x = b64url_encode(key);
    let mut canonical = String::from_str("{\"crv\":\"Ed25519\",\"kty\":\"OKP\",\"x\":\"");
    canonical.append(x.as_str());
    canonical.append("\"}");
    let hash = sha256_32(canonical.as_str().as_bytes());
    proof {
        lemma_b64_nopad_len(hash@, true);
    }
    b64url_encode(&hash)
}

/// Holder keypair for DPoP proofs: the Ed25519 seed, its public key and the
/// key's JWK thumbprint, derived once.
pub struct DpopSigner {
    seed: [u8; 32],
    verifying_key: [u8; 32],
    jkt: String,
}

impl DpopSigner {
    /// The public key and thumbprint are those of the seed.
    #[verifier::type_invariant]
    pub closed spec fn wf(&self) -> bool {
        &&& self.verifying_key@ == ed25519_public(self.seed@)
        &&& self.jkt@ == jwk_thumbprint_spec(self.verifying_key@)
        &&& self.jkt@.len() == 43
    }

    /// The holder's Ed25519 seed.
    pub closed spec fn key_seed(&self) -> Seq<u8> {
        self.seed@
    }

    /// The cached thumbprint.
    pub closed spec fn thumbprint(&self) -> Seq<char> {
        self.jkt@
    }

    /// Generate a fresh Ed25519 holder keypair from the OS random source.
    pub fn generate() -> (res: Self)
        ensures
            res.wf(),
    {
        let seed = generate_seed();
        Self::from_seed(seed)
    }

    /// Reconstruct a signer from a 32-byte Ed25519 seed.
    pub fn from_seed(seed: [u8; 32]) -> (res: Self)
        ensures
            res.wf(),
            res.key_seed() == seed@,
            res.thumbprint() == jwk_thumbprint_spec(ed25519_public(seed@)),
    {
        let verifying_key = ed25519_public_key(&seed);
        let jkt = jwk_thumbprint_ed25519(&verifying_key);
        let signer = DpopSigner { seed, verifying_key, jkt };
        proof {
            use_type_invariant(&signer);
        }
        signer
    }

    /// RFC 7638 JWK thumbprint of the holder public key (the `dpop_jkt` to
    /// send at onboarding).
    pub fn jwk_thumbprint(&self) -> (res: &str)
        ensures
            res@ == self.thumbprint(),
            res@ == jwk_thumbprint_spec(ed25519_public(self.key_seed())),
            res@.len() == 43,
    {
        proof {
            use_type_invariant(self);
        }
        self.jkt.as_str()
    }

    /// Raw 32-byte seed for persistence. Treat as a secret.
    pub fn seed(&self) -> (res: [u8; 32])
        ensures
            res@ == self.key_seed(),
    {
        self.seed
    }

    /// The holder's Ed25519 public key.
    pub fn verifying_key(&self) -> (res: [u8; 32])
        ensures
            res@ == ed25519_public(self.key_seed()),
    {
        proof {
            use_type_invariant(self);
        }
        self.verifying_key
    }

    /// Mint the DPoP proof JWT for an HTTP method and URL, with the given
    /// issue time and nonce.
    pub fn mint_proof_at(&self, htm: &str, htu: &str, iat: u64, jti: &[u8; 16]) -> (res: String)
        ensures
            res@ == dpop_proof(self.key_seed(), htm@, htu@, iat, jti@),
            dpop_self_verifies(self.key_seed(), htm@, htu@, iat, jti@),
    {
        proof {
            use_type_invariant(self);
        }
        let x = b64url_encode(&self.verifying_key);
        let x_json = json_string(x.as_str());
        let mut header = String::from_str(
            "{\"alg\":\"EdDSA\",\"jwk\":{\"crv\":\"Ed25519\",\"kty\":\"OKP\",\"x\":",
        );
        header.append(x_json.as_str());
        header.append("},\"typ\":\"dpop+jwt\"}");

        let htm_json = json_string(htm);
        let htu_json = json_string(htu);
        let iat_text = u64_text(iat);
        let jti_hex = hex_encode(jti);
        let jti_json = json_string(jti_hex.as_str());
        let mut payload = String::from_str("{\"htm\":");
        payload.append(htm_json.as_str());
        payload.append(",\"htu\":");
        payload.append(htu_json.as_str());
        payload.append(",\"iat\":");
        payload.append(iat_text.as_str());
        payload.append(",\"jti\":");
        payload.append(jti_json.as_str());
        payload.append("}");

        let header_b64 = b64url_encode(header.as_str().as_bytes());
        let payload_b64 = b64url_encode(payload.as_str().as_bytes());
        let mut signing_input = header_b64;
        signing_input.append(".");
        signing_input.append(payload_b64.as_str());
        let signature = ed25519_sign(&self.seed, signing_input.as_str().as_bytes());
        let signature_b64 = b64url_encode(&signature);
        let mut proof = signing_input;
        proof.append(".");
        proof.append(signature_b64.as_str());
        proof
    }

    /// Mint a fresh DPoP proof JWT for an HTTP method and URL: `iat` is now
    /// and `jti` a random 128-bit nonce, so each call gets a distinct proof.
    /// Fails with a `Config` error when the system clock reads before the
    /// Unix epoch.
    pub fn mint_proof(&self, htm: &str, htu: &str) -> (res: Result<String, TenzroEdgeError>)
        ensures
            res matches Ok(p) ==> exists|iat: u64, jti: Seq<u8>|
                jti.len() == 16 && p@ == #[trigger] dpop_proof(self.key_seed(), htm@, htu@, iat, jti)
                    && dpop_self_verifies(self.key_seed(), htm@, htu@, iat, jti),
            res matches Err(e) ==> is_config_error(e, clock_error_text()),
    {
        let now = unix_seconds_now();
        let jti = random_16();
        let res = self.mint_proof_with_reading(htm, htu, now, &jti);
        proof {
            if let Some(iat) = now {
                assert(jti@.len() == 16);
                assert(res matches Ok(p) && p@ == dpop_proof(self.key_seed(), htm@, htu@, iat, jti@));
            }
        }
        res
    }

    /// Mint the proof for a clock reading (whole seconds since the Unix
    /// epoch, `None` when the clock reads before it) and a nonce: the proof
    /// is issued at exactly that reading, or the clock error comes back.
    pub fn mint_proof_with_reading(
        &self,
        htm: &str,
        htu: &str,
        now: Option<u64>,
        jti: &[u8; 16],
    ) -> (res: Result<String, TenzroEdgeError>)
        ensures
            match now {
                None => res matches Err(e) && is_config_error(e, clock_error_text()),
                Some(iat) => res matches Ok(p) && p@ == dpop_proof(
                    self.key_seed(),
                    htm@,
                    htu@,
                    iat,
                    jti@,
                ) && dpop_self_verifies(self.key_seed(), htm@, htu@, iat, jti@),
            },
    {
        match now {
            None => Err(
                TenzroEdgeError::Config(
                    String::from_str(
                        "system clock pre-epoch: second time provided was later than self",
                    ),
                ),
            ),
            Some(iat) => Ok(self.mint_proof_at(htm, htu, iat, jti)),
        }
    }
}


// ---------------------------------------------------------------------------
// Laws
// ---------------------------------------------------------------------------

/// `s` holds no `.`.
pub open spec fn no_dot(s: Seq<char>) -> bool {
    forall|i: int| 0 <= i < s.len() ==> s[i] != '.'
}

proof fn lemma_split_at_dot(a1: Seq<char>, r1: Seq<char>, a2: Seq<char>, r2: Seq<char>)
    requires
        no_dot(a1),
        no_dot(a2),
        a1 + seq!['.'] + r1 == a2 + seq!['.'] + r2,
    ensures
        a1 == a2,
        r1 == r2,
{
    let w = a1 + seq!['.'] + r1;
    let w2 = a2 + seq!['.'] + r2;
    if a1.len() < a2.len() {
        assert(w[a1.len() as int] == '.');
        assert(w2[a1.len() as int] == a2[a1.len() as int]);
    } else if a2.len() < a1.len() {
        assert(w2[a2.len() as int] == '.');
        assert(w[a2.len() as int] == a1[a2.len() as int]);
    }
    assert(a1 =~= w.subrange(0, a1.len() as int));
    assert(a2 =~= w2.subrange(0, a2.len() as int));
    assert(r1 =~= w.subrange(a1.len() as int + 1, w.len() as int));
    assert(r2 =~= w2.subrange(a2.len() as int + 1, w2.len() as int));
}

/// A DPoP proof is three dot-free segments joined by `.`: the encoded
/// header, the encoded payload, and the encoded Ed25519 signature of the
/// first two segments joined by `.`. Splitting a proof at its dots therefore
/// gives exactly these three parts.
pub proof fn law_proof_has_three_segments(
    seed: Seq<u8>,
    htm: Seq<char>,
    htu: Seq<char>,
    iat: u64,
    jti: Seq<u8>,
)
    ensures
        ({
            let h = dpop_header_segment(seed);
            let p = dpop_payload_segment(htm, htu, iat, jti);
            let s = dpop_signature_segment(seed, htm, htu, iat, jti);
            &&& dpop_proof(seed, htm, htu, iat, jti) == h + seq!['.'] + p + seq!['.'] + s
            &&& no_dot(h)
            &&& no_dot(p)
            &&& no_dot(s)
            &&& s == b64url(ed25519_signature(seed, encode_utf8(h + seq!['.'] + p)))
        }),
{
    reveal_strlit(".");
    let h = dpop_header_segment(seed);
    let p = dpop_payload_segment(htm, htu, iat, jti);
    let s = dpop_signature_segment(seed, htm, htu, iat, jti);
    lemma_b64url_has_no_dot(encode_utf8(dpop_header(ed25519_public(seed))));
    lemma_b64url_has_no_dot(encode_utf8(dpop_payload(htm, htu, iat, jti)));
    lemma_b64url_has_no_dot(
        ed25519_signature(seed, encode_utf8(dpop_signing_input(seed, htm, htu, iat, jti))),
    );
    assert("."@ == seq!['.']);
}

proof fn lemma_hex_lower_plain(b: Seq<u8>)
    ensures
        forall|i: int| 0 <= i < hex_lower(b).len() ==> json_plain(#[trigger] hex_lower(b)[i]),
    decreases b.len(),
{
    if b.len() > 0 {
        lemma_hex_lower_plain(b.drop_first());
        let h = hex_lower(b);
        let t = hex_lower(b.drop_first());
        assert forall|i: int| 0 <= i < h.len() implies json_plain(#[trigger] h[i]) by {
            if i >= 2 {
                assert(h[i] == t[i - 2]);
            } else if i == 0 {
                assert(h[i] == hex_digit(b[0] as int / 16));
            } else {
                assert(h[i] == hex_digit(b[0] as int % 16));
            }
        }
    }
}

proof fn lemma_payload_determines_nonce(
    htm: Seq<char>,
    htu: Seq<char>,
    iat: u64,
    j1: Seq<u8>,
    j2: Seq<u8>,
)
    requires
        dpop_payload(htm, htu, iat, j1) == dpop_payload(htm, htu, iat, j2),
    ensures
        j1 == j2,
{
    let prefix = "{\"htm\":"@ + json_quoted(htm) + ",\"htu\":"@ + json_quoted(htu) + ",\"iat\":"@
        + decimal(iat as nat) + ",\"jti\":"@;
    let h1 = hex_lower(j1);
    let h2 = hex_lower(j2);
    let e = "}"@;
    let p1 = dpop_payload(htm, htu, iat, j1);
    let p2 = dpop_payload(htm, htu, iat, j2);
    assert(p1 == prefix + json_quoted(h1) + e);
    assert(p2 == prefix + json_quoted(h2) + e);
    let q1 = json_quoted(h1);
    let q2 = json_quoted(h2);
    assert(q1.len() == q2.len());
    assert(q1 =~= p1.subrange(prefix.len() as int, prefix.len() as int + q1.len()));
    assert(q2 =~= p2.subrange(prefix.len() as int, prefix.len() as int + q2.len()));
    lemma_hex_lower_plain(j1);
    lemma_hex_lower_plain(j2);
    lemma_json_escaped_plain(h1);
    lemma_json_escaped_plain(h2);
    assert(h1 =~= q1.subrange(1, q1.len() - 1));
    assert(h2 =~= q2.subrange(1, q2.len() - 1));
    lemma_hex_injective(j1, j2);
}

proof fn lemma_payload_determines_time(
    htm: Seq<char>,
    htu: Seq<char>,
    t1: u64,
    t2: u64,
    jti: Seq<u8>,
)
    requires
        dpop_payload(htm, htu, t1, jti) == dpop_payload(htm, htu, t2, jti),
    ensures
        t1 == t2,
{
    let prefix = "{\"htm\":"@ + json_quoted(htm) + ",\"htu\":"@ + json_quoted(htu) + ",\"iat\":"@;
    let suffix = ",\"jti\":"@ + json_quoted(hex_lower(jti)) + "}"@;
    let d1 = decimal(t1 as nat);
    let d2 = decimal(t2 as nat);
    let p1 = dpop_payload(htm, htu, t1, jti);
    let p2 = dpop_payload(htm, htu, t2, jti);
    assert(p1 =~= prefix + d1 + suffix);
    assert(p2 =~= prefix + d2 + suffix);
    assert(d1.len() == d2.len());
    assert(d1 =~= p1.subrange(prefix.len() as int, prefix.len() + d1.len() as int));
    assert(d2 =~= p2.subrange(prefix.len() as int, prefix.len() + d2.len() as int));
    lemma_decimal_injective(t1 as nat, t2 as nat);
}

/// A proof says when it was issued: proofs minted by one signer for one
/// method, URL and nonce at different issue times differ, so the `iat` a
/// proof carries is the time it was minted for.
pub proof fn law_distinct_time_distinct_proof(
    seed: Seq<u8>,
    htm: Seq<char>,
    htu: Seq<char>,
    t1: u64,
    t2: u64,
    jti: Seq<u8>,
)
    requires
        t1 != t2,
    ensures
        dpop_proof(seed, htm, htu, t1, jti) != dpop_proof(seed, htm, htu, t2, jti),
{
    if dpop_proof(seed, htm, htu, t1, jti) == dpop_proof(seed, htm, htu, t2, jti) {
        law_proof_has_three_segments(seed, htm, htu, t1, jti);
        law_proof_has_three_segments(seed, htm, htu, t2, jti);
        let h = dpop_header_segment(seed);
        let p1 = dpop_payload_segment(htm, htu, t1, jti);
        let p2 = dpop_payload_segment(htm, htu, t2, jti);
        let s1 = dpop_signature_segment(seed, htm, htu, t1, jti);
        let s2 = dpop_signature_segment(seed, htm, htu, t2, jti);
        assert(h + seq!['.'] + p1 + seq!['.'] + s1 == h + seq!['.'] + (p1 + seq!['.'] + s1));
        assert(h + seq!['.'] + p2 + seq!['.'] + s2 == h + seq!['.'] + (p2 + seq!['.'] + s2));
        lemma_split_at_dot(h, p1 + seq!['.'] + s1, h, p2 + seq!['.'] + s2);
        lemma_split_at_dot(p1, s1, p2, s2);
        lemma_b64_injective(
            encode_utf8(dpop_payload(htm, htu, t1, jti)),
            encode_utf8(dpop_payload(htm, htu, t2, jti)),
            true,
            false,
        );
        vstd::utf8::encode_utf8_decode_utf8(dpop_payload(htm, htu, t1, jti));
        vstd::utf8::encode_utf8_decode_utf8(dpop_payload(htm, htu, t2, jti));
        lemma_payload_determines_time(htm, htu, t1, t2, jti);
    }
}

/// Two proofs minted by one signer for one method, URL and time, but with
/// different nonces, differ: a distinct `jti` gives a distinct proof.
pub proof fn law_distinct_nonce_distinct_proof(
    seed: Seq<u8>,
    htm: Seq<char>,
    htu: Seq<char>,
    iat: u64,
    j1: Seq<u8>,
    j2: Seq<u8>,
)
    requires
        j1 != j2,
    ensures
        dpop_proof(seed, htm, htu, iat, j1) != dpop_proof(seed, htm, htu, iat, j2),
{
    if dpop_proof(seed, htm, htu, iat, j1) == dpop_proof(seed, htm, htu, iat, j2) {
        law_proof_has_three_segments(seed, htm, htu, iat, j1);
        law_proof_has_three_segments(seed, htm, htu, iat, j2);
        let h = dpop_header_segment(seed);
        let p1 = dpop_payload_segment(htm, htu, iat, j1);
        let p2 = dpop_payload_segment(htm, htu, iat, j2);
        let s1 = dpop_signature_segment(seed, htm, htu, iat, j1);
        let s2 = dpop_signature_segment(seed, htm, htu, iat, j2);
        assert(h + seq!['.'] + p1 + seq!['.'] + s1 == h + seq!['.'] + (p1 + seq!['.'] + s1));
        assert(h + seq!['.'] + p2 + seq!['.'] + s2 == h + seq!['.'] + (p2 + seq!['.'] + s2));
        lemma_split_at_dot(h, p1 + seq!['.'] + s1, h, p2 + seq!['.'] + s2);
        lemma_split_at_dot(p1, s1, p2, s2);
        lemma_b64_injective(
            encode_utf8(dpop_payload(htm, htu, iat, j1)),
            encode_utf8(dpop_payload(htm, htu, iat, j2)),
            true,
            false,
        );
        vstd::utf8::encode_utf8_decode_utf8(dpop_payload(htm, htu, iat, j1));
        vstd::utf8::encode_utf8_decode_utf8(dpop_payload(htm, htu, iat, j2));
        lemma_payload_determines_nonce(htm, htu, iat, j1, j2);
    }
}

/// Two signers made from the same seed have the same thumbprint.
pub proof fn law_same_seed_same_thumbprint(a: DpopSigner, b: DpopSigner)
    requires
        a.wf(),
        b.wf(),
        a.key_seed() == b.key_seed(),
    ensures
        a.thumbprint() == b.thumbprint(),
{
}

impl Clone for DpopSigner {
    fn clone(&self) -> (res: Self)
        ensures
            res.key_seed() == self.key_seed(),
            res.thumbprint() == self.thumbprint(),
    {
        proof {
            use_type_invariant(self);
        }
        DpopSigner { seed: self.seed, verifying_key: self.verifying_key, jkt: self.jkt.clone() }
    }
}

} // verus!
