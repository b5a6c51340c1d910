//! Blob storage backed by Tenzro iroh blobs.
//!
//! `put` publishes the bytes and returns a `tenzro://blob/<hash>` key;
//! `get` and `head` fetch them; `delete` does nothing, since iroh content is
//! content-addressed and immutable.

use vstd::prelude::*;

use crate::client::TenzroHandle;
use crate::crypto::{blake3_32, blake3_digest};
use crate::sdk::{sdk_debug, SdkFailure};
use crate::text::{hex_decode, hex_decode_spec, hex_lower, lemma_hex_round_trip};

verus! {

/// Why a storage operation failed.
#[derive(Clone, Debug)]
pub enum StorageError {
    /// Transient failure; retrying may help.
    Transient(String),
    /// No such blob.
    NotFound(String),
    /// Not allowed.
    Unauthorised,
    /// Any other failure.
    Failed(String),
}

/// What is known of a stored blob.
#[derive(Clone, Debug)]
pub struct BlobMetadata {
    /// The blob's key (`tenzro://blob/<hash>`).
    pub key: String,
    /// Size in bytes.
    pub size: u64,
    /// BLAKE3 of the contents.
    pub digest_blake3: [u8; 32],
}

/// Map an SDK failure into storage errors.
pub fn map_sdk(e: SdkFailure) -> (res: StorageError)
    ensures
        match e {
            SdkFailure::ConnectionError(s) => res matches StorageError::Transient(m) && m@ == s@,
            SdkFailure::RpcError(s) => res matches StorageError::Transient(m) && m@ == s@,
            SdkFailure::Timeout => res matches StorageError::Transient(m) && m@ == "timeout"@,
            SdkFailure::NotFound(s) => res matches StorageError::NotFound(m) && m@ == s@,
            SdkFailure::AuthenticationError(_) => res is Unauthorised,
            _ => res matches StorageError::Failed(m) && m@ == sdk_debug(e),
        },
{
    match e {
        SdkFailure::ConnectionError(s) => StorageError::Transient(s),
        SdkFailure::RpcError(s) => StorageError::Transient(s),
        SdkFailure::Timeout => StorageError::Transient(String::from_str("timeout")),
        SdkFailure::NotFound(s) => StorageError::NotFound(s),
        SdkFailure::AuthenticationError(_) => StorageError::Unauthorised,
        other => StorageError::Failed(other.debug_text()),
    }
}

/// The 32 bytes `s` spells in hex, if it spells exactly 32.
pub open spec fn hex_to_32_spec(s: Seq<char>) -> Option<Seq<u8>> {
    match hex_decode_spec(s) {
        Some(b) => if b.len() == 32 {
            Some(b)
        } else {
            None
        },
        None => None,
    }
}

/// Parse the hex of a 32-byte digest.
pub fn hex_to_32(s: &str) -> (res: Option<[u8; 32]>)
    ensures
        match res {
            Some(d) => hex_to_32_spec(s@) == Some(d@),
            None => hex_to_32_spec(s@) is None,
        },
{
    match hex_decode(s) {
        None => None,
        Some(bytes) => {
            if bytes.len() == 32 {
                let mut out: [u8; 32] = [0u8; 32];
                let mut i: usize = 0;
                while i < 32
                    invariant
                        i <= 32,
                        bytes@.len() == 32,
                        forall|j: int| 0 <= j < i ==> out@[j] == bytes@[j],
                    decreases 32 - i,
                {
                    out.set(i, bytes[i]);
                    i = i + 1;
                }
                assert(out@ =~= bytes@);
                Some(out)
            } else {
                None
            }
        },
    }
}

/// A 32-byte digest written in hex parses back to itself.
pub proof fn law_hex_to_32_round_trip(digest: Seq<u8>)
    requires
        digest.len() == 32,
    ensures
        hex_to_32_spec(hex_lower(digest)) == Some(digest),
{
    lemma_hex_round_trip(digest);
}

/// The metadata of a published blob, from the URI, size and hex digest the
/// node reported; a digest that is not 32 bytes of hex fails.
pub fn published_metadata(tenzro_uri: String, size_bytes: u64, blake3_hex: &str) -> (res: Result<
    BlobMetadata,
    StorageError,
>)
    ensures
        match hex_to_32_spec(blake3_hex@) {
            Some(d) => res matches Ok(m) && m.key@ == tenzro_uri@ && m.size == size_bytes
                && m.digest_blake3@ == d,
            None => res matches Err(StorageError::Failed(m)) && m@ == "bad blake3_hex: "@
                + blake3_hex@,
        },
{
    match hex_to_32(blake3_hex) {
        Some(d) => Ok(BlobMetadata { key: tenzro_uri, size: size_bytes, digest_blake3: d }),
        None => {
            let mut m = String::from_str("bad blake3_hex: ");
            m.append(blake3_hex);
            Err(StorageError::Failed(m))
        },
    }
}

/// `len` as a `u64`, saturating at `u64::MAX`.
pub open spec fn saturate_u64(n: usize) -> u64 {
    if n > u64::MAX {
        u64::MAX
    } else {
        n as u64
    }
}

/// The metadata of a fetched blob: its key, its length and its BLAKE3 hash.
pub fn head_metadata(key: String, bytes: &[u8]) -> (res: BlobMetadata)
    ensures
        res.key@ == key@,
        res.size == saturate_u64(bytes@.len() as usize),
        res.digest_blake3@ == blake3_digest(bytes@),
{
    let n = bytes.len();
    let size: u64 = if n as u128 > u64::MAX as u128 {
        u64::MAX
    } else {
        n as u64
    };
    BlobMetadata { key, size, digest_blake3: blake3_32(bytes) }
}


/// Blob storage backed by Tenzro iroh blobs.
pub struct TenzroStorage {
    handle: TenzroHandle,
}

impl TenzroStorage {
    /// The handle it works through.
    pub closed spec fn handle_view(&self) -> TenzroHandle {
        self.handle
    }

    /// Construct a Tenzro storage backend.
    pub fn new(handle: TenzroHandle) -> (res: Self)
        ensures
            res.handle_view() == handle,
    {
        TenzroStorage { handle }
    }

    /// The handle it stores through.
    pub fn handle(&self) -> (res: &TenzroHandle)
        ensures
            *res == self.handle_view(),
    {
        &self.handle
    }
}

} // verus!
