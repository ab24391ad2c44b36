//! Checksums of downloaded packages: a streaming SHA-256 over the bytes
//! received and the lower-case hex text it is compared by.

use vstd::prelude::*;
use sha2::Digest;
use crate::text::{chars_of, text_eq};

verus! {

/// A SHA-256 computation in progress (`sha2::Sha256`). Its contents are the
/// bytes fed to it so far; `sha2` gives no way to declare the hasher's type
/// here (it is an alias of a generic wrapper with trait-bounded parameters), so
/// it is held privately.
#[verifier::external_body]
pub struct Sha256Stream {
    inner: sha2::Sha256,
}

/// The bytes a SHA-256 computation has been fed so far.
pub uninterp spec fn stream_input(h: Sha256Stream) -> Seq<u8>;

/// The SHA-256 digest of `data`.
pub uninterp spec fn sha256_of(data: Seq<u8>) -> Seq<u8>;

/// Starts a SHA-256 computation (`Sha256::new`): it has been fed nothing.
#[verifier::external_body]
fn sha256_start() -> (r: Sha256Stream)
    ensures
        stream_input(r) == Seq::<u8>::empty(),
{
    Sha256Stream { inner: sha2::Sha256::new() }
}

/// Feeds `data` to a SHA-256 computation (`Digest::update`): its input grows by `data`.
#[verifier::external_body]
fn sha256_feed(h: &mut Sha256Stream, data: &[u8])
    ensures
        stream_input(*final(h)) == stream_input(*old(h)) + data@,
{
    h.inner.update(data);
}

/// Ends a SHA-256 computation (`Digest::finalize`): the 32-byte digest of
/// everything it was fed.
#[verifier::external_body]
fn sha256_finish(h: Sha256Stream) -> (r: Vec<u8>)
    ensures
        r@ == sha256_of(stream_input(h)),
        r@.len() == 32,
{
    h.inner.finalize().to_vec()
}

impl Sha256Stream {
    /// A new computation that has been fed nothing.
    pub fn start() -> (r: Sha256Stream)
        ensures
            stream_input(r) == Seq::<u8>::empty(),
    {
        sha256_start()
    }

    /// Feeds `data`.
    pub fn absorb(&mut self, data: &[u8])
        ensures
            stream_input(*final(self)) == stream_input(*old(self)) + data@,
    {
        sha256_feed(self, data)
    }

    /// The digest of everything fed.
    pub fn finish(self) -> (r: Vec<u8>)
        ensures
            r@ == sha256_of(stream_input(self)),
            r@.len() == 32,
    {
        sha256_finish(self)
    }
}

/// The lower-case hex digit for `n < 16`.
pub open spec fn hex_digit(n: int) -> char {
    if n < 10 {
        (('0' as int) + n) as char
    } else {
        (('a' as int) + n - 10) as char
    }
}

/// `data` in lower-case hex, two digits per byte, high digit first.
pub open spec fn hex_lower(data: Seq<u8>) -> Seq<char>
    decreases data.len(),
{
    if data.len() == 0 {
        seq![]
    } else {
        hex_lower(data.drop_last()).push(hex_digit(data.last() as int / 16)).push(
            hex_digit(data.last() as int % 16),
        )
    }
}

/// `data` in lower-case hex (`hex::encode`).
#[verifier::external_body]
fn hex_encode(data: &[u8]) -> (r: String)
    ensures
        r@ == hex_lower(data@),
{
    hex::encode(data)
}

/// A downloaded package whose checksum is not the one expected.
pub struct ChecksumMismatch {
    /// The checksum the manifest names.
    pub expected: String,
    /// The checksum of the bytes received.
    pub actual: String,
}

/// Checks the digest of a download against the checksum `expected` (hex
/// text): `Ok` exactly when the lower-case hex of `digest` is `expected`,
/// letter case included; otherwise both texts are returned.
pub fn verify_checksum(digest: &[u8], expected: &str) -> (r: Result<(), ChecksumMismatch>)
    ensures
        r is Ok <==> hex_lower(digest@) == expected@,
        r matches Err(m) ==> m.expected@ == expected@ && m.actual@ == hex_lower(digest@),
{
    let actual = hex_encode(digest);
    let a = chars_of(actual.as_str());
    if text_eq(&a, expected) {
        Ok(())
    } else {
        Err(ChecksumMismatch { expected: expected.to_string(), actual })
    }
}

} // verus!
