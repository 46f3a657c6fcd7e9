//! Content fingerprinting: an incremental MD5 digest over a file's bytes,
//! reported as a lowercase hex string together with the exact byte length
//! observed while hashing.
//!
//! The digest itself comes from the `md5` crate and is not restated here; it
//! is only named, so the contracts can say that equal inputs yield equal
//! fingerprints.  The hex rendering is fully specified.

use md5::{Digest, Md5};
use vstd::prelude::*;

verus! {

/// The bytes a digest state has absorbed so far.
pub uninterp spec fn md5_absorbed(state: Md5State) -> Seq<u8>;

/// The 16-byte MD5 digest of a byte sequence; a function of the bytes alone.
pub uninterp spec fn md5_digest_of(data: Seq<u8>) -> Seq<u8>;

/// An incremental MD5 digest state, holding the `md5` crate's hasher.
/// Opaque: the contracts on its operations speak only of `md5_absorbed`.
#[verifier::external_body]
pub struct Md5State {
    inner: Md5,
}

/// Relies on md5::Md5::new (via the Digest trait): a fresh state has absorbed
/// nothing.
#[verifier::external_body]
fn md5_state_new() -> (state: Md5State)
    ensures
        md5_absorbed(state) == Seq::<u8>::empty(),
{
    Md5State { inner: Md5::new() }
}

/// Relies on md5::Md5::update (via the Digest trait): updating appends the
/// buffer to the absorbed bytes.
#[verifier::external_body]
fn md5_state_update(state: &mut Md5State, buf: &[u8])
    ensures
        md5_absorbed(*final(state)) == md5_absorbed(*old(state)) + buf@,
{
    state.inner.update(buf);
}

/// Relies on md5::Md5::finalize (via the Digest trait): the output is the
/// 16-byte MD5 digest of the absorbed bytes, a function of those bytes alone.
#[verifier::external_body]
fn md5_state_finalize(state: Md5State) -> (digest: Vec<u8>)
    ensures
        digest@ == md5_digest_of(md5_absorbed(state)),
        digest@.len() == 16,
{
    state.inner.finalize().to_vec()
}

/// The lowercase hex character for a value below 16.
pub open spec fn hex_digit(n: u8) -> char
    recommends
        n < 16,
{
    if n == 0 {
        '0'
    } else if n == 1 {
        '1'
    } else if n == 2 {
        '2'
    } else if n == 3 {
        '3'
    } else if n == 4 {
        '4'
    } else if n == 5 {
        '5'
    } else if n == 6 {
        '6'
    } else if n == 7 {
        '7'
    } else if n == 8 {
        '8'
    } else if n == 9 {
        '9'
    } else if n == 10 {
        'a'
    } else if n == 11 {
        'b'
    } else if n == 12 {
        'c'
    } else if n == 13 {
        'd'
    } else if n == 14 {
        'e'
    } else {
        'f'
    }
}

/// Lowercase hex rendering of a byte sequence: two digits per byte, high
/// nibble first.
pub open spec fn hex_of(bytes: Seq<u8>) -> Seq<char>
    decreases bytes.len(),
{
    if bytes.len() == 0 {
        Seq::<char>::empty()
    } else {
        seq![hex_digit(bytes[0] / 16), hex_digit(bytes[0] % 16)] + hex_of(bytes.drop_first())
    }
}

/// Relies on hex::encode: each byte becomes two lowercase hex digits, high
/// nibble first.
#[verifier::external_body]
fn hex_encode(bytes: &Vec<u8>) -> (r: String)
    ensures
        r@ == hex_of(bytes@),
{
    hex::encode(bytes.as_slice())
}

/// The content fingerprint of a byte sequence: its MD5 digest in lowercase
/// hex.
pub open spec fn fingerprint_of(data: Seq<u8>) -> Seq<char> {
    hex_of(md5_digest_of(data))
}

/// Streams a file's bytes, buffer by buffer, into a running digest and
/// reports the fingerprint with the byte length actually hashed.
pub struct ContentHasher {
    pub state: Md5State,
    pub length: u64,
}

impl ContentHasher {
    /// The bytes this hasher has absorbed so far.
    pub open spec fn absorbed(&self) -> Seq<u8> {
        md5_absorbed(self.state)
    }

    /// The byte counter matches the absorbed bytes.
    pub open spec fn wf(&self) -> bool {
        self.length == self.absorbed().len()
    }

    /// A fresh hasher that has seen no bytes.
    pub fn new() -> (h: ContentHasher)
        ensures
            h.wf(),
            h.absorbed() == Seq::<u8>::empty(),
    {
        ContentHasher { state: md5_state_new(), length: 0 }
    }

    /// Absorb one buffer of file bytes.
    pub fn update(&mut self, buf: &[u8])
        requires
            old(self).wf(),
            old(self).absorbed().len() + buf@.len() <= u64::MAX,
        ensures
            final(self).wf(),
            final(self).absorbed() == old(self).absorbed() + buf@,
    {
        md5_state_update(&mut self.state, buf);
        self.length = self.length + buf.len() as u64;
    }

    /// Finish hashing: the fingerprint of everything absorbed, and the byte
    /// length observed while hashing.
    pub fn finish(self) -> (r: (String, u64))
        requires
            self.wf(),
        ensures
            r.0@ == fingerprint_of(self.absorbed()),
            r.1 == self.absorbed().len(),
    {
        let digest = md5_state_finalize(self.state);
        (hex_encode(&digest), self.length)
    }
}

/// Fingerprint a byte slice in one call.
pub fn fingerprint_bytes(data: &[u8]) -> (r: (String, u64))
    ensures
        r.0@ == fingerprint_of(data@),
        r.1 == data@.len(),
{
    let mut hasher = ContentHasher::new();
    // binds the slice's length to a machine word, bounding the update
    let len = data.len();
    proof {
        assert(len <= u64::MAX);
        assert(hasher.absorbed() + data@ =~= data@);
    }
    hasher.update(data);
    hasher.finish()
}

/// The fingerprint is deterministic: hashing the same bytes yields the same
/// fingerprint, whatever call produced them.
pub proof fn lemma_fingerprint_deterministic(a: Seq<u8>, b: Seq<u8>)
    requires
        a == b,
    ensures
        fingerprint_of(a) == fingerprint_of(b),
{
}

} // verus!
