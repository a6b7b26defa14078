//! SHA-256 of a model file, fed chunk by chunk as the file is read, and the
//! check of the digest against the expected checksum.
use vstd::prelude::*;
use sha2::Digest;
use crate::error::SpielError;
use crate::model::{check_checksum, check_model_header, header_error, hex, hex_of, ModelSpec};
use crate::text::ascii_lower;

verus! {

/// A streaming `sha2::Sha256` hasher. (`sha2::Sha256` is an alias of a
/// generic wrapper over further generic types of the `digest` crate, whose
/// declaration Verus refuses, so the hasher is held here.)
#[verifier::external_body]
pub struct Sha256Hasher {
    inner: sha2::Sha256,
}

/// The bytes fed to a hasher so far.
pub uninterp spec fn fed(h: Sha256Hasher) -> Seq<u8>;

/// The SHA-256 digest of `bytes`.
pub uninterp spec fn sha256_of(bytes: Seq<u8>) -> Seq<u8>;

/// `Sha256::new`: a hasher that has been fed nothing.
#[verifier::external_body]
fn sha256_new() -> (h: Sha256Hasher)
    ensures
        fed(h) == Seq::<u8>::empty(),
{
    Sha256Hasher { inner: sha2::Sha256::new() }
}

/// `Sha256::update`: the chunk is appended to what the hasher was fed.
#[verifier::external_body]
fn sha256_update(h: &mut Sha256Hasher, chunk: &[u8])
    ensures
        fed(*final(h)) == fed(*old(h)) + chunk@,
{
    h.inner.update(chunk);
}

/// `Sha256::finalize`: the 32-byte digest of all bytes fed.
#[verifier::external_body]
fn sha256_finalize(h: Sha256Hasher) -> (r: Vec<u8>)
    ensures
        r@ == sha256_of(fed(h)),
        r@.len() == 32,
{
    h.inner.finalize().to_vec()
}

/// The digest of a model file under way: the bytes read so far.
pub struct ModelDigest {
    hasher: Sha256Hasher,
}

impl View for ModelDigest {
    type V = Seq<u8>;

    closed spec fn view(&self) -> Seq<u8> {
        fed(self.hasher)
    }
}

/// The lowercase hexadecimal SHA-256 of `bytes`.
pub open spec fn sha256_hex(bytes: Seq<u8>) -> Seq<char> {
    hex_of(sha256_of(bytes))
}

/// The verdict on a model file of `len` bytes whose content is `bytes`,
/// held to the checksum `expected` (compared without regard to ASCII case).
pub open spec fn digest_verdict(
    bytes: Seq<u8>,
    expected: Seq<char>,
    len: u64,
    path_display: Seq<char>,
    r: Result<u64, SpielError>,
) -> bool {
    if ascii_lower(expected) == ascii_lower(sha256_hex(bytes)) {
        r == Ok::<u64, SpielError>(len)
    } else {
        r matches Err(SpielError::Model(m)) && m@ == path_display + " checksum mismatch: expected "@
            + expected + " but got "@ + sha256_hex(bytes)
    }
}

impl ModelDigest {
    /// A digest that has read nothing yet.
    pub fn new() -> (r: ModelDigest)
        ensures
            r@ == Seq::<u8>::empty(),
    {
        ModelDigest { hasher: sha256_new() }
    }

    /// Take in the next chunk read from the file.
    pub fn feed(&mut self, chunk: &[u8])
        ensures
            final(self)@ == old(self)@ + chunk@,
    {
        sha256_update(&mut self.hasher, chunk);
    }

    /// The lowercase hexadecimal digest of everything read.
    pub fn hex_digest(self) -> (r: String)
        ensures
            r@ == sha256_hex(self@),
    {
        let d = sha256_finalize(self.hasher);
        hex(d.as_slice())
    }

    /// Hold everything read to the expected checksum: the file's length
    /// when the digest matches, else the mismatch error.
    pub fn check(self, expected: &str, len: u64, path_display: &str) -> (r: Result<u64, SpielError>)
        ensures
            digest_verdict(self@, expected@, len, path_display@, r),
    {
        let got = self.hex_digest();
        match check_checksum(expected, got.as_str(), path_display) {
            Ok(()) => Ok(len),
            Err(e) => Err(e),
        }
    }
}

/// The verdict on a model file: `header` holds its first bytes (fewer than
/// four when it is shorter), `len` its length, `expected` the checksum it is
/// held to (or why none could be found), and `bytes` its content as read for
/// the digest. A file that passes the structural checks and matches its
/// checksum, if it has one, is good for `len` bytes.
pub open spec fn file_verdict(
    header: Seq<u8>,
    len: u64,
    spec: ModelSpec,
    path_display: Seq<char>,
    expected: Result<Option<String>, SpielError>,
    bytes: Seq<u8>,
    r: Result<u64, SpielError>,
) -> bool {
    match header_error(header, len, spec, path_display) {
        Some(m) => r matches Err(SpielError::Model(e)) && e@ == m,
        None => match expected {
            Err(e) => r == Err::<u64, SpielError>(e),
            Ok(None) => r == Ok::<u64, SpielError>(len),
            Ok(Some(x)) => digest_verdict(bytes, x@, len, path_display, r),
        },
    }
}

/// Decide on a model file from what was read of it. `digest` has been fed
/// the whole file when there is an expected checksum (and is not read
/// otherwise).
pub fn model_file_verdict(
    header: &[u8],
    len: u64,
    spec: &ModelSpec,
    path_display: &str,
    expected: Result<Option<String>, SpielError>,
    digest: ModelDigest,
) -> (r: Result<u64, SpielError>)
    ensures
        file_verdict(header@, len, *spec, path_display@, expected, digest@, r),
{
    if let Err(e) = check_model_header(header, len, spec, path_display) {
        return Err(e);
    }
    match expected {
        Err(e) => Err(e),
        Ok(None) => Ok(len),
        Ok(Some(x)) => digest.check(x.as_str(), len, path_display),
    }
}

} // verus!
