//! Model artefacts for `tenzro://` URIs.
//!
//! A `tenzro://{blob,model}/<blake3-hex>` URI is resolved to bytes through
//! the Tenzro SDK's iroh-backed resolver; the bytes' BLAKE3 digest is checked
//! against the one the URI names, and they are cached under
//! `<cache_dir>/<blake3-hex>`, one file per artefact, so that a second fetch
//! of a URI naming a digest is served from the cache with no network call.
//! The manifest's name is the URI's last path segment, or the digest's hex
//! when the URI yields none.

use vstd::prelude::*;

use crate::client::TenzroHandle;
use crate::crypto::{blake3_32, blake3_digest};
use crate::sdk::{sdk_debug, SdkFailure};
use crate::storage::{hex_to_32, hex_to_32_spec};
use crate::text::{after_last, hex_encode, hex_lower, last_segment, starts_with};

verus! {

/// The URI scheme this source serves.
pub const SCHEME: &'static str = "tenzro";

/// Why fetching failed.
#[derive(Clone, Debug)]
pub enum ModelSourceError {
    /// Transient failure; retrying may help.
    Transient(String),
    /// No such artefact.
    NotFound(String),
    /// The URI is not one this source serves.
    UnsupportedUri(String),
    /// Any other failure.
    Other(String),
}

/// Map an SDK failure into model-source errors.
pub fn map_sdk(e: SdkFailure) -> (res: ModelSourceError)
    ensures
        match e {
            SdkFailure::ConnectionError(s) => res matches ModelSourceError::Transient(m) && m@
                == s@,
            SdkFailure::RpcError(s) => res matches ModelSourceError::Transient(m) && m@ == s@,
            SdkFailure::Timeout => res matches ModelSourceError::Transient(m) && m@ == "timeout"@,
            SdkFailure::NotFound(s) => res matches ModelSourceError::NotFound(m) && m@ == s@,
            SdkFailure::InvalidParameter(s) => res matches ModelSourceError::Other(m) && m@
                == "invalid: "@ + s@,
            _ => res matches ModelSourceError::Other(m) && m@ == sdk_debug(e),
        },
{
    match e {
        SdkFailure::ConnectionError(s) => ModelSourceError::Transient(s),
        SdkFailure::RpcError(s) => ModelSourceError::Transient(s),
        SdkFailure::Timeout => ModelSourceError::Transient(String::from_str("timeout")),
        SdkFailure::NotFound(s) => ModelSourceError::NotFound(s),
        SdkFailure::InvalidParameter(s) => {
            let mut m = String::from_str("invalid: ");
            m.append(s.as_str());
            ModelSourceError::Other(m)
        },
        other => ModelSourceError::Other(other.debug_text()),
    }
}

/// `uri` begins with `tenzro://`.
pub open spec fn is_tenzro_uri(uri: Seq<char>) -> bool {
    "tenzro://"@.len() <= uri.len() && uri.subrange(0, "tenzro://"@.len() as int) == "tenzro://"@
}

/// Only `tenzro://` URIs are fetched here.
pub fn check_uri(uri: &str) -> (res: Result<(), ModelSourceError>)
    ensures
        res is Ok <==> is_tenzro_uri(uri@),
        res matches Err(e) ==> e matches ModelSourceError::UnsupportedUri(u) && u@ == uri@,
{
    if starts_with(uri, "tenzro://") {
        Ok(())
    } else {
        Err(ModelSourceError::UnsupportedUri(String::from_str(uri)))
    }
}

/// Every `tenzro://` URI is one this source fetches, whatever follows the
/// scheme: blobs (the keys storage hands out) as well as models.
pub proof fn law_tenzro_uris_accepted(rest: Seq<char>)
    ensures
        is_tenzro_uri("tenzro://"@ + rest),
        is_tenzro_uri("tenzro://blob/"@ + rest),
        is_tenzro_uri("tenzro://model/"@ + rest),
{
    reveal_strlit("tenzro://");
    reveal_strlit("tenzro://blob/");
    reveal_strlit("tenzro://model/");
    assert(("tenzro://"@ + rest).subrange(0, 9) =~= "tenzro://"@);
    assert(("tenzro://blob/"@ + rest).subrange(0, 9) =~= "tenzro://"@);
    assert(("tenzro://model/"@ + rest).subrange(0, 9) =~= "tenzro://"@);
}

/// A URI of any other scheme is refused: one whose text does not begin with
/// `tenzro://` is not fetched here.
pub proof fn law_other_schemes_refused(uri: Seq<char>, i: int)
    requires
        0 <= i < 9,
        i < uri.len(),
        uri[i] != "tenzro://"@[i],
    ensures
        !is_tenzro_uri(uri),
{
    reveal_strlit("tenzro://");
    if is_tenzro_uri(uri) {
        assert(uri.subrange(0, 9)[i] == uri[i]);
    }
}

/// What is known of a fetched artefact.
#[derive(Clone, Debug)]
pub struct ModelManifest {
    /// A name hint: the URI's last path segment, or the digest's hex when
    /// that segment is empty.
    pub name: String,
    /// BLAKE3 of the artefact's bytes.
    pub digest_blake3: [u8; 32],
    /// Format (`"unknown"`: the URI does not say).
    pub format: String,
}

/// A fetched artefact's manifest and the name of its cache file.
#[derive(Clone, Debug)]
pub struct FetchedModel {
    /// The manifest.
    pub manifest: ModelManifest,
    /// The cache file name: the lower-case hex of the digest.
    pub cache_file_name: String,
}

/// `uri` begins with `prefix`.
pub open spec fn has_prefix(uri: Seq<char>, prefix: Seq<char>) -> bool {
    prefix.len() <= uri.len() && uri.subrange(0, prefix.len() as int) == prefix
}

/// The BLAKE3 digest a URI names: for `tenzro://blob/<hex>` and
/// `tenzro://model/<hex>`, the last path segment read as 32 bytes of hex.
/// Other URIs, and segments that are not 64 hex digits, name none.
pub open spec fn named_digest(uri: Seq<char>) -> Option<Seq<u8>> {
    if has_prefix(uri, "tenzro://blob/"@) || has_prefix(uri, "tenzro://model/"@) {
        hex_to_32_spec(after_last(uri, '/'))
    } else {
        None
    }
}

/// A URI that names a digest is one this source fetches.
pub proof fn law_digest_uris_accepted(uri: Seq<char>)
    requires
        named_digest(uri) is Some,
    ensures
        is_tenzro_uri(uri),
{
    reveal_strlit("tenzro://blob/");
    reveal_strlit("tenzro://model/");
    reveal_strlit("tenzro://");
    if has_prefix(uri, "tenzro://blob/"@) {
        assert(uri.subrange(0, 9) =~= uri.subrange(0, 14).subrange(0, 9));
        assert("tenzro://blob/"@.subrange(0, 9) =~= "tenzro://"@);
    } else {
        assert(has_prefix(uri, "tenzro://model/"@));
        assert(uri.subrange(0, 9) =~= uri.subrange(0, 15).subrange(0, 9));
        assert("tenzro://model/"@.subrange(0, 9) =~= "tenzro://"@);
    }
    assert(uri.subrange(0, 9) =~= "tenzro://"@);
    assert("tenzro://"@.len() == 9);
}

/// The manifest name: the URI's last path segment, falling back to the
/// digest's hex when the URI yields none.
pub open spec fn manifest_name(uri: Seq<char>, digest: Seq<u8>) -> Seq<char> {
    if after_last(uri, '/').len() == 0 {
        hex_lower(digest)
    } else {
        after_last(uri, '/')
    }
}

/// The message when fetched bytes do not hash to the digest the URI names.
pub open spec fn digest_mismatch_text(uri: Seq<char>, digest: Seq<u8>) -> Seq<char> {
    "blake3 mismatch for "@ + uri + ": content hashes to "@ + hex_lower(digest)
}

/// The digest `uri` names, if any.
pub fn uri_digest(uri: &str) -> (res: Option<[u8; 32]>)
    ensures
        match res {
            Some(d) => named_digest(uri@) == Some(d@),
            None => named_digest(uri@) is None,
        },
{
    if starts_with(uri, "tenzro://blob/") || starts_with(uri, "tenzro://model/") {
        hex_to_32(last_segment(uri, '/'))
    } else {
        None
    }
}

/// The cache file that holds the artefact `uri` names, when it names a
/// digest: the digest's lower-case hex. A fetch can look there first.
pub fn cached_file_name(uri: &str) -> (res: Option<String>)
    ensures
        match named_digest(uri@) {
            Some(d) => res matches Some(n) && n@ == hex_lower(d),
            None => res is None,
        },
{
    match uri_digest(uri) {
        Some(d) => Some(hex_encode(&d)),
        None => None,
    }
}

fn digests_equal(a: &[u8; 32], b: &[u8; 32]) -> (res: bool)
    ensures
        res == (a@ == b@),
{
    let mut i: usize = 0;
    while i < 32
        invariant
            i <= 32,
            forall|j: int| 0 <= j < i ==> a@[j] == b@[j],
        decreases 32 - i,
    {
        if a[i] != b[i] {
            return false;
        }
        i = i + 1;
    }
    assert(a@ =~= b@);
    true
}

/// The manifest and cache file name for the bytes fetched for `uri`. The
/// bytes are hashed with BLAKE3; when the URI names a digest and the bytes
/// hash to another, they are refused (and nothing is to be cached).
pub fn fetched_model(uri: &str, bytes: &[u8]) -> (res: Result<FetchedModel, ModelSourceError>)
    ensures
        match named_digest(uri@) {
            Some(d) if d != blake3_digest(bytes@) => res matches Err(ModelSourceError::Other(m))
                && m@ == digest_mismatch_text(uri@, blake3_digest(bytes@)),
            _ => res matches Ok(f) && f.manifest.name@ == manifest_name(uri@, blake3_digest(bytes@))
                && f.manifest.digest_blake3@ == blake3_digest(bytes@) && f.manifest.format@
                == "unknown"@ && f.cache_file_name@ == hex_lower(blake3_digest(bytes@)),
        },
{
    let digest = blake3_32(bytes);
    let hex = hex_encode(&digest);
    match uri_digest(uri) {
        Some(named) => {
            if !digests_equal(&named, &digest) {
                let mut m = String::from_str("blake3 mismatch for ");
                m.append(uri);
                m.append(": content hashes to ");
                m.append(hex.as_str());
                return Err(ModelSourceError::Other(m));
            }
        },
        None => {},
    }
    let segment = last_segment(uri, '/');
    let name = if segment.unicode_len() == 0 {
        hex.clone()
    } else {
        String::from_str(segment)
    };
    Ok(
        FetchedModel {
            manifest: ModelManifest { name, digest_blake3: digest, format: String::from_str("unknown") },
            cache_file_name: hex,
        },
    )
}

/// Cached bytes are served for a URI exactly when the URI names a digest and
/// the bytes still hash to it; then the result is what a fresh fetch of
/// those bytes gives, with no network call.
pub fn cache_hit(uri: &str, cached: Option<&[u8]>) -> (res: Option<FetchedModel>)
    ensures
        res is Some <==> (cached matches Some(b) && named_digest(uri@) == Some(blake3_digest(b@))),
        res matches Some(f) ==> (cached matches Some(b) && f.manifest.name@ == manifest_name(
            uri@,
            blake3_digest(b@),
        ) && f.manifest.digest_blake3@ == blake3_digest(b@) && f.manifest.format@ == "unknown"@
            && f.cache_file_name@ == hex_lower(blake3_digest(b@))),
{
    match cached {
        None => None,
        Some(b) => match uri_digest(uri) {
            None => None,
            Some(_) => match fetched_model(uri, b) {
                Ok(f) => Some(f),
                Err(_) => None,
            },
        },
    }
}

/// Model source for `tenzro://` URIs, caching artefacts in a directory.
pub struct TenzroModelSource {
    id: String,
    handle: TenzroHandle,
    cache_dir: String,
}

impl TenzroModelSource {
    /// The handle it works through.
    pub closed spec fn handle_view(&self) -> TenzroHandle {
        self.handle
    }

    /// The source's id.
    pub closed spec fn id_view(&self) -> Seq<char> {
        self.id@
    }

    /// The cache directory.
    pub closed spec fn cache_dir_view(&self) -> Seq<char> {
        self.cache_dir@
    }

    /// Construct a Tenzro model source caching artefacts in `cache_dir`
    /// (created on first fetch).
    pub fn new(id: String, handle: TenzroHandle, cache_dir: String) -> (res: Self)
        ensures
            res.id_view() == id@,
            res.cache_dir_view() == cache_dir@,
            res.handle_view() == handle,
    {
        TenzroModelSource { id, handle, cache_dir }
    }

    /// The source's id.
    pub fn id(&self) -> (res: String)
        ensures
            res@ == self.id_view(),
    {
        self.id.clone()
    }

    /// The cache directory.
    pub fn cache_dir(&self) -> (res: &str)
        ensures
            res@ == self.cache_dir_view(),
    {
        self.cache_dir.as_str()
    }

    /// The handle it fetches through.
    pub fn handle(&self) -> (res: &TenzroHandle)
        ensures
            *res == self.handle_view(),
    {
        &self.handle
    }
}

} // verus!
