//! Content-digest algorithms.
//!
//! A file's content digest names the file at its destination, so the digest
//! must be a deterministic function of the bytes alone.  The four supported
//! algorithms are computed by outside crates behind trusted streaming
//! wrappers; the hex rendering of the raw digest is verified here.

use sha1::Digest;
use vstd::prelude::*;

use crate::render::{hex_str_fixed, hex_str_of_bytes, hex_string_of_bytes, hex_string_u32_pad8};

verus! {

#[verifier::external_type_specification]
#[verifier::external_body]
pub struct ExCrc32Hasher(crc32fast::Hasher);

#[verifier::external_type_specification]
#[verifier::external_body]
pub struct ExSha1(sha1::Sha1);

#[verifier::external_type_specification]
#[verifier::external_body]
pub struct ExSha256(sha2::Sha256);

#[verifier::external_type_specification]
#[verifier::external_body]
pub struct ExMd5(md5::Md5);

/// The CRC-32 checksum of a byte string: a function of the bytes alone.
pub uninterp spec fn crc32_of(bytes: Seq<u8>) -> u32;

/// The SHA-1 digest of a byte string: a function of the bytes alone.
pub uninterp spec fn sha1_of(bytes: Seq<u8>) -> Seq<u8>;

/// The SHA-256 digest of a byte string: a function of the bytes alone.
pub uninterp spec fn sha256_of(bytes: Seq<u8>) -> Seq<u8>;

/// The MD5 digest of a byte string: a function of the bytes alone.
pub uninterp spec fn md5_of(bytes: Seq<u8>) -> Seq<u8>;

/// The selectable digest algorithms: one fast checksum and three
/// cryptographic digests.
#[derive(Debug, Clone, Copy, PartialEq, Eq, Structural)]
pub enum Hash {
    Sha1,
    Sha256,
    Md5,
    Crc32,
}

impl Default for Hash {
    /// The default algorithm is the fast checksum.
    fn default() -> (r: Self)
        ensures
            r == Hash::Crc32,
    {
        Hash::Crc32
    }
}

impl Hash {
    /// The short algorithm name used inside destination file names.
    pub fn name(&self) -> (r: &'static str)
        ensures
            r@ == self.spec_name(),
    {
        proof {
            reveal_strlit("sha1");
            reveal_strlit("sha256");
            reveal_strlit("md5");
            reveal_strlit("crc32");
        }
        match self {
            Hash::Sha1 => "sha1",
            Hash::Sha256 => "sha256",
            Hash::Md5 => "md5",
            Hash::Crc32 => "crc32",
        }
    }

    pub open spec fn spec_name(self) -> Seq<char> {
        match self {
            Hash::Sha1 => "sha1"@,
            Hash::Sha256 => "sha256"@,
            Hash::Md5 => "md5"@,
            Hash::Crc32 => "crc32"@,
        }
    }

    /// The lowercase hex rendering of the digest of a byte string under
    /// this algorithm; checksum output is zero-padded to eight digits.
    pub open spec fn spec_digest_hex(self, bytes: Seq<u8>) -> Seq<char> {
        match self {
            Hash::Sha1 => hex_str_of_bytes(sha1_of(bytes)),
            Hash::Sha256 => hex_str_of_bytes(sha256_of(bytes)),
            Hash::Md5 => hex_str_of_bytes(md5_of(bytes)),
            Hash::Crc32 => hex_str_fixed(crc32_of(bytes) as int, 8),
        }
    }

    /// Digests a byte string under this algorithm and renders the result
    /// as lowercase hex.  Callers that stream a file feed the same bytes
    /// through the corresponding streaming state instead.
    pub fn digest(&self, bytes: &Vec<u8>) -> (r: String)
        ensures
            r@ == self.spec_digest_hex(bytes@),
    {
        match self {
            Hash::Sha1 => digest_sha1(bytes),
            Hash::Sha256 => digest_sha256(bytes),
            Hash::Md5 => digest_md5(bytes),
            Hash::Crc32 => digest_crc32(bytes),
        }
    }
}

/// A streaming SHA-1 computation; the ghost field records the bytes fed.
pub struct Sha1State {
    inner: sha1::Sha1,
    fed: Ghost<Seq<u8>>,
}

impl Sha1State {
    /// The bytes fed so far.
    pub closed spec fn bytes_fed(self) -> Seq<u8> {
        self.fed@
    }

    /// Starts a fresh computation over the empty byte string.
    pub fn new() -> (s: Self)
        ensures
            s.bytes_fed() == Seq::<u8>::empty(),
    {
        Sha1State { inner: sha1_new_raw(), fed: Ghost(Seq::empty()) }
    }

    /// Feeds one chunk: the bytes fed grow by exactly that chunk.
    pub fn update(&mut self, chunk: &[u8])
        ensures
            final(self).bytes_fed() == old(self).bytes_fed() + chunk@,
    {
        sha1_update_raw(&mut self.inner, chunk);
        self.fed = Ghost(self.fed@ + chunk@);
    }

    /// Relies on `Digest::finalize` of the sha1 crate: the twenty-byte
    /// SHA-1 digest of all bytes fed.  Feeding the
    /// bytes in pieces digests their concatenation, so the result is the
    /// digest of the bytes fed.
    #[verifier::external_body]
    pub fn finish(self) -> (r: Vec<u8>)
        ensures
            r@ == sha1_of(self.bytes_fed()),
            r@.len() == 20,
    {
        self.inner.finalize().to_vec()
    }
}

/// Relies on `sha1::Sha1::default()` of the sha1 crate: a hasher that has
/// absorbed nothing.
#[verifier::external_body]
fn sha1_new_raw() -> sha1::Sha1 {
    sha1::Sha1::default()
}

/// Relies on the sha1 crate's update: absorbs one chunk of bytes.
#[verifier::external_body]
fn sha1_update_raw(h: &mut sha1::Sha1, chunk: &[u8]) {
    h.update(chunk);
}

/// A streaming SHA-256 computation; the ghost field records the bytes fed.
pub struct Sha256State {
    inner: sha2::Sha256,
    fed: Ghost<Seq<u8>>,
}

impl Sha256State {
    /// The bytes fed so far.
    pub closed spec fn bytes_fed(self) -> Seq<u8> {
        self.fed@
    }

    /// Starts a fresh computation over the empty byte string.
    pub fn new() -> (s: Self)
        ensures
            s.bytes_fed() == Seq::<u8>::empty(),
    {
        Sha256State { inner: sha256_new_raw(), fed: Ghost(Seq::empty()) }
    }

    /// Feeds one chunk: the bytes fed grow by exactly that chunk.
    pub fn update(&mut self, chunk: &[u8])
        ensures
            final(self).bytes_fed() == old(self).bytes_fed() + chunk@,
    {
        sha256_update_raw(&mut self.inner, chunk);
        self.fed = Ghost(self.fed@ + chunk@);
    }

    /// Relies on `Digest::finalize` of the sha2 crate: the thirty-two-byte
    /// SHA-256 digest of all bytes fed.  Feeding the
    /// bytes in pieces digests their concatenation, so the result is the
    /// digest of the bytes fed.
    #[verifier::external_body]
    pub fn finish(self) -> (r: Vec<u8>)
        ensures
            r@ == sha256_of(self.bytes_fed()),
            r@.len() == 32,
    {
        self.inner.finalize().to_vec()
    }
}

/// Relies on `sha2::Sha256::default()` of the sha2 crate: a hasher that has
/// absorbed nothing.
#[verifier::external_body]
fn sha256_new_raw() -> sha2::Sha256 {
    sha2::Sha256::default()
}

/// Relies on the sha2 crate's update: absorbs one chunk of bytes.
#[verifier::external_body]
fn sha256_update_raw(h: &mut sha2::Sha256, chunk: &[u8]) {
    h.update(chunk);
}

/// A streaming MD5 computation; the ghost field records the bytes fed.
pub struct Md5State {
    inner: md5::Md5,
    fed: Ghost<Seq<u8>>,
}

impl Md5State {
    /// The bytes fed so far.
    pub closed spec fn bytes_fed(self) -> Seq<u8> {
        self.fed@
    }

    /// Starts a fresh computation over the empty byte string.
    pub fn new() -> (s: Self)
        ensures
            s.bytes_fed() == Seq::<u8>::empty(),
    {
        Md5State { inner: md5_new_raw(), fed: Ghost(Seq::empty()) }
    }

    /// Feeds one chunk: the bytes fed grow by exactly that chunk.
    pub fn update(&mut self, chunk: &[u8])
        ensures
            final(self).bytes_fed() == old(self).bytes_fed() + chunk@,
    {
        md5_update_raw(&mut self.inner, chunk);
        self.fed = Ghost(self.fed@ + chunk@);
    }

    /// Relies on `Digest::finalize` of the md-5 crate: the sixteen-byte
    /// MD5 digest of all bytes fed.  Feeding the
    /// bytes in pieces digests their concatenation, so the result is the
    /// digest of the bytes fed.
    #[verifier::external_body]
    pub fn finish(self) -> (r: Vec<u8>)
        ensures
            r@ == md5_of(self.bytes_fed()),
            r@.len() == 16,
    {
        self.inner.finalize().to_vec()
    }
}

/// Relies on `md5::Md5::new()` of the md-5 crate: a hasher that has
/// absorbed nothing.
#[verifier::external_body]
fn md5_new_raw() -> md5::Md5 {
    md5::Md5::new()
}

/// Relies on the md-5 crate's update: absorbs one chunk of bytes.
#[verifier::external_body]
fn md5_update_raw(h: &mut md5::Md5, chunk: &[u8]) {
    h.update(chunk);
}

/// A streaming CRC-32 computation; the ghost field records the bytes fed.
pub struct Crc32State {
    inner: crc32fast::Hasher,
    fed: Ghost<Seq<u8>>,
}

impl Crc32State {
    /// The bytes fed so far.
    pub closed spec fn bytes_fed(self) -> Seq<u8> {
        self.fed@
    }

    /// Starts a fresh computation over the empty byte string.
    pub fn new() -> (s: Self)
        ensures
            s.bytes_fed() == Seq::<u8>::empty(),
    {
        Crc32State { inner: crc32_new_raw(), fed: Ghost(Seq::empty()) }
    }

    /// Feeds one chunk: the bytes fed grow by exactly that chunk.
    pub fn update(&mut self, chunk: &[u8])
        ensures
            final(self).bytes_fed() == old(self).bytes_fed() + chunk@,
    {
        crc32_update_raw(&mut self.inner, chunk);
        self.fed = Ghost(self.fed@ + chunk@);
    }

    /// Relies on `crc32fast::Hasher::finalize`: the CRC-32 checksum of all
    /// bytes fed.  Feeding the
    /// bytes in pieces digests their concatenation, so the result is the
    /// digest of the bytes fed.
    #[verifier::external_body]
    pub fn finish(self) -> (r: u32)
        ensures
            r == crc32_of(self.bytes_fed()),
    {
        self.inner.finalize()
    }
}

/// Relies on `crc32fast::Hasher::new()` of the crc32fast crate: a hasher that has
/// absorbed nothing.
#[verifier::external_body]
fn crc32_new_raw() -> crc32fast::Hasher {
    crc32fast::Hasher::new()
}

/// Relies on the crc32fast crate's update: absorbs one chunk of bytes.
#[verifier::external_body]
fn crc32_update_raw(h: &mut crc32fast::Hasher, chunk: &[u8]) {
    h.update(chunk);
}

/// The SHA-1 digest of a byte string, streamed in small chunks and
/// rendered as forty lowercase hex digits.
pub fn digest_sha1(bytes: &Vec<u8>) -> (r: String)
    ensures
        r@ == hex_str_of_bytes(sha1_of(bytes@)),
{
    let mut st = Sha1State::new();
    feed_sha1(&mut st, bytes);
    let raw = st.finish();
    hex_string_of_bytes(&raw)
}

/// Feeds a byte string to a SHA-1 computation in chunks of at most 1024
/// bytes.
fn feed_sha1(st: &mut Sha1State, bytes: &Vec<u8>)
    ensures
        final(st).bytes_fed() == old(st).bytes_fed() + bytes@,
{
    let ghost fed0 = st.bytes_fed();
    let mut i: usize = 0;
    proof {
        assert(fed0 + bytes@.take(0) =~= fed0);
    }
    while i < bytes.len()
        invariant
            i <= bytes@.len(),
            st.bytes_fed() == fed0 + bytes@.take(i as int),
        decreases bytes@.len() - i,
    {
        let end = if bytes.len() - i < 1024 {
            bytes.len()
        } else {
            i + 1024
        };
        let chunk = vstd::slice::slice_subrange(bytes.as_slice(), i, end);
        st.update(chunk);
        proof {
            assert((fed0 + bytes@.take(i as int)) + bytes@.subrange(i as int, end as int)
                =~= fed0 + bytes@.take(end as int));
        }
        i = end;
    }
    proof {
        assert(fed0 + bytes@.take(bytes@.len() as int) =~= fed0 + bytes@);
    }
}

/// The SHA-256 digest of a byte string, streamed in small chunks and
/// rendered as sixty-four lowercase hex digits.
pub fn digest_sha256(bytes: &Vec<u8>) -> (r: String)
    ensures
        r@ == hex_str_of_bytes(sha256_of(bytes@)),
{
    let mut st = Sha256State::new();
    feed_sha256(&mut st, bytes);
    let raw = st.finish();
    hex_string_of_bytes(&raw)
}

/// Feeds a byte string to a SHA-256 computation in chunks of at most 1024
/// bytes.
fn feed_sha256(st: &mut Sha256State, bytes: &Vec<u8>)
    ensures
        final(st).bytes_fed() == old(st).bytes_fed() + bytes@,
{
    let ghost fed0 = st.bytes_fed();
    let mut i: usize = 0;
    proof {
        assert(fed0 + bytes@.take(0) =~= fed0);
    }
    while i < bytes.len()
        invariant
            i <= bytes@.len(),
            st.bytes_fed() == fed0 + bytes@.take(i as int),
        decreases bytes@.len() - i,
    {
        let end = if bytes.len() - i < 1024 {
            bytes.len()
        } else {
            i + 1024
        };
        let chunk = vstd::slice::slice_subrange(bytes.as_slice(), i, end);
        st.update(chunk);
        proof {
            assert((fed0 + bytes@.take(i as int)) + bytes@.subrange(i as int, end as int)
                =~= fed0 + bytes@.take(end as int));
        }
        i = end;
    }
    proof {
        assert(fed0 + bytes@.take(bytes@.len() as int) =~= fed0 + bytes@);
    }
}

/// The MD5 digest of a byte string, streamed in small chunks and rendered
/// as thirty-two lowercase hex digits.
pub fn digest_md5(bytes: &Vec<u8>) -> (r: String)
    ensures
        r@ == hex_str_of_bytes(md5_of(bytes@)),
{
    let mut st = Md5State::new();
    feed_md5(&mut st, bytes);
    let raw = st.finish();
    hex_string_of_bytes(&raw)
}

/// Feeds a byte string to an MD5 computation in chunks of at most 1024
/// bytes.
fn feed_md5(st: &mut Md5State, bytes: &Vec<u8>)
    ensures
        final(st).bytes_fed() == old(st).bytes_fed() + bytes@,
{
    let ghost fed0 = st.bytes_fed();
    let mut i: usize = 0;
    proof {
        assert(fed0 + bytes@.take(0) =~= fed0);
    }
    while i < bytes.len()
        invariant
            i <= bytes@.len(),
            st.bytes_fed() == fed0 + bytes@.take(i as int),
        decreases bytes@.len() - i,
    {
        let end = if bytes.len() - i < 1024 {
            bytes.len()
        } else {
            i + 1024
        };
        let chunk = vstd::slice::slice_subrange(bytes.as_slice(), i, end);
        st.update(chunk);
        proof {
            assert((fed0 + bytes@.take(i as int)) + bytes@.subrange(i as int, end as int)
                =~= fed0 + bytes@.take(end as int));
        }
        i = end;
    }
    proof {
        assert(fed0 + bytes@.take(bytes@.len() as int) =~= fed0 + bytes@);
    }
}

/// The CRC-32 checksum of a byte string, streamed in small chunks and
/// rendered as exactly eight lowercase hex digits.
pub fn digest_crc32(bytes: &Vec<u8>) -> (r: String)
    ensures
        r@ == hex_str_fixed(crc32_of(bytes@) as int, 8),
{
    let mut st = Crc32State::new();
    feed_crc32(&mut st, bytes);
    let raw = st.finish();
    hex_string_u32_pad8(raw)
}

/// Feeds a byte string to a CRC-32 computation in chunks of at most 1024
/// bytes.
fn feed_crc32(st: &mut Crc32State, bytes: &Vec<u8>)
    ensures
        final(st).bytes_fed() == old(st).bytes_fed() + bytes@,
{
    let ghost fed0 = st.bytes_fed();
    let mut i: usize = 0;
    proof {
        assert(fed0 + bytes@.take(0) =~= fed0);
    }
    while i < bytes.len()
        invariant
            i <= bytes@.len(),
            st.bytes_fed() == fed0 + bytes@.take(i as int),
        decreases bytes@.len() - i,
    {
        let end = if bytes.len() - i < 1024 {
            bytes.len()
        } else {
            i + 1024
        };
        let chunk = vstd::slice::slice_subrange(bytes.as_slice(), i, end);
        st.update(chunk);
        proof {
            assert((fed0 + bytes@.take(i as int)) + bytes@.subrange(i as int, end as int)
                =~= fed0 + bytes@.take(end as int));
        }
        i = end;
    }
    proof {
        assert(fed0 + bytes@.take(bytes@.len() as int) =~= fed0 + bytes@);
    }
}

} // verus!
