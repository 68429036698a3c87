//! Digests, keyed MACs and randomness used by the database layer.
//!
//! SHA-256 and HMAC-SHA256 are computed by the `sha2` and `hmac` crates; the
//! library only names their results and builds on them.

use vstd::prelude::*;
use vstd::string::StringSliceAdditionalSpecFns;
use hmac::Mac;
use sha2::Digest;
use crate::hex::{hex_lower, to_hex_lower, SALT_LEN};

verus! {

/// The SHA-256 digest of `data`, as computed by the `sha2` crate.
pub uninterp spec fn sha256_digest(data: Seq<u8>) -> Seq<u8>;

/// HMAC-SHA256 of `data` under `key`, as computed by the `hmac` crate.
pub uninterp spec fn hmac_sha256_tag(key: Seq<u8>, data: Seq<u8>) -> Seq<u8>;

/// `sha2::Sha256::digest`: the result is the SHA-256 digest of the input,
/// 32 bytes long (`OutputSize = U32`). Nothing is claimed of the digest's
/// value beyond its name.
#[verifier::external_body]
fn sha256(data: &[u8]) -> (r: Vec<u8>)
    ensures
        r@ == sha256_digest(data@),
        r@.len() == 32,
{
    sha2::Sha256::digest(data).to_vec()
}

/// `hmac::Hmac::<Sha256>::new_from_slice`, `update` and `finalize`: the
/// result is the HMAC-SHA256 tag of `data` under `key`, 32 bytes long.
/// `new_from_slice` accepts keys of every length, so the call never fails.
#[verifier::external_body]
fn hmac_sha256(key: &[u8], data: &[u8]) -> (r: Vec<u8>)
    ensures
        r@ == hmac_sha256_tag(key@, data@),
        r@.len() == 32,
{
    let mut mac = hmac::Hmac::<sha2::Sha256>::new_from_slice(key).expect("HMAC takes any key");
    mac.update(data);
    mac.finalize().into_bytes().to_vec()
}

/// `rand::rng().fill`: overwrites `buf` with bytes from the thread-local
/// CSPRNG. Only the length is stated: the bytes are random. (`rand` panics
/// if the operating system's entropy source is unavailable; that depends on
/// the machine, not on the argument.)
#[verifier::external_body]
fn fill_random(buf: &mut Vec<u8>)
    ensures
        final(buf)@.len() == old(buf)@.len(),
{
    rand::Rng::fill(&mut rand::rng(), &mut buf[..]);
}

/// Hash stored beside a memory entry for change detection:
/// the lowercase hex SHA-256 of the content's UTF-8 bytes.
pub fn content_hash_hex(content: &str) -> (r: String)
    ensures
        r@ == hex_lower(sha256_digest(content.spec_bytes())),
        r@.len() == 64,
{
    let digest = sha256(content.as_bytes());
    let r = to_hex_lower(digest.as_slice());
    proof {
        crate::hex::lemma_hex_lower_len(digest@);
    }
    r
}

/// Domain-separated key derived from the per-installation salt:
/// HMAC-SHA256 with the salt as key and the domain as data.
pub fn derive_hmac_key(salt: &[u8], domain: &[u8]) -> (r: Vec<u8>)
    ensures
        r@ == hmac_sha256_tag(salt@, domain@),
        r@.len() == 32,
{
    hmac_sha256(salt, domain)
}

/// A fresh per-installation salt with its hex text for the `meta` table.
pub struct NewSalt {
    pub salt: Vec<u8>,
    pub hex: String,
}

/// Draws a fresh 32-byte salt from the CSPRNG and writes its lowercase hex text.
pub fn generate_salt() -> (r: NewSalt)
    ensures
        r.salt@.len() == SALT_LEN,
        r.hex@ == hex_lower(r.salt@),
{
    let mut salt: Vec<u8> = Vec::new();
    let mut i: usize = 0;
    while i < SALT_LEN
        invariant
            i <= SALT_LEN,
            salt@.len() == i,
        decreases SALT_LEN - i,
    {
        salt.push(0u8);
        i = i + 1;
    }
    fill_random(&mut salt);
    let hex = to_hex_lower(salt.as_slice());
    NewSalt { salt, hex }
}

} // verus!

verus! {

/// Where the per-installation salt comes from at startup.
pub enum SaltSource {
    /// The stored hex text decoded to a 32-byte salt; it is used as is.
    Stored(Vec<u8>),
    /// Nothing usable was stored: a fresh salt, whose hex text must be saved.
    Fresh(NewSalt),
}

/// Chooses the HMAC salt: the stored one when its hex text decodes, else a
/// fresh random one (a missing or corrupt salt is regenerated).
pub fn resolve_hmac_salt(stored: Option<&str>) -> (r: SaltSource)
    requires
        stored matches Some(h) ==> crate::hex::salt_hex_slices_ok(h.spec_bytes()),
    ensures
        match stored {
            Some(h) => match crate::hex::salt_from_hex(h.spec_bytes()) {
                Some(b) => r matches SaltSource::Stored(v) && v@ == b,
                None => r is Fresh,
            },
            None => r is Fresh,
        },
        r matches SaltSource::Fresh(n) ==> n.salt@.len() == SALT_LEN && n.hex@ == hex_lower(
            n.salt@,
        ),
{
    if let Some(h) = stored {
        if let Some(b) = crate::hex::decode_salt_hex(h) {
            return SaltSource::Stored(b);
        }
    }
    SaltSource::Fresh(generate_salt())
}

} // verus!
