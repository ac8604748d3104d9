//! Content digests for download verification.
//!
//! A download is verified by feeding its bytes, chunk by chunk, into a
//! [`StreamVerifier`], and then asking for a verdict against the declared
//! content length and the digest the release feed declared for the asset.
//! The whole body is never buffered for hashing: the hasher state carries
//! the running digest.
//!
//! The hash function is SHA-256, from the `sha2` crate, and is trusted; its
//! result is only ever named ([`digest_of`]), never restated, so every
//! contract here is exact relative to that name.

use vstd::prelude::*;
use vstd::string::*;
use crate::text::push_char;

verus! {

/// The digest of `data`, as the bytes of the hash value.
pub uninterp spec fn digest_of(data: Seq<u8>) -> Seq<u8>;

/// The bytes fed into a hasher so far.
pub uninterp spec fn hasher_fed(h: Sha256Hasher) -> Seq<u8>;

/// An incremental SHA-256 hasher over the `sha2` crate.
#[verifier::external_body]
pub struct Sha256Hasher {
    inner: sha2::Sha256,
}

impl Sha256Hasher {
    /// Relies on `sha2::Sha256::new` (`digest::Digest::new`): a fresh hasher
    /// has processed no input.
    #[verifier::external_body]
    pub fn new() -> (h: Sha256Hasher)
        ensures
            hasher_fed(h) == Seq::<u8>::empty(),
    {
        Sha256Hasher { inner: <sha2::Sha256 as sha2::Digest>::new() }
    }

    /// Relies on `digest::Digest::update`: processes `chunk` after the input
    /// seen so far, as one more piece of a single concatenated message.
    #[verifier::external_body]
    pub fn update(&mut self, chunk: &[u8])
        ensures
            hasher_fed(*final(self)) == hasher_fed(*old(self)) + chunk@,
    {
        sha2::Digest::update(&mut self.inner, chunk);
    }

    /// Relies on `digest::Digest::finalize`: returns the 32-byte digest of
    /// the concatenation of all input fed so far.
    #[verifier::external_body]
    pub fn finalize(self) -> (r: Vec<u8>)
        ensures
            r@ == digest_of(hasher_fed(self)),
            r@.len() == 32,
    {
        sha2::Digest::finalize(self.inner).to_vec()
    }
}

/// The lower-case hexadecimal digits, indexed by value.
pub const HEX_DIGITS: [char; 16] = [
    '0', '1', '2', '3', '4', '5', '6', '7', '8', '9', 'a', 'b', 'c', 'd', 'e', 'f',
];

/// The lower-case hexadecimal digit for the value `d`.
pub open spec fn hex_digit(d: nat) -> char {
    HEX_DIGITS@[d as int]
}

/// The lower-case hexadecimal rendering of `data`, two digits per byte.
pub open spec fn hex_of(data: Seq<u8>) -> Seq<char>
    decreases data.len(),
{
    if data.len() == 0 {
        Seq::<char>::empty()
    } else {
        seq![
            hex_digit((data.first() >> 4) as nat),
            hex_digit((data.first() & 0x0f) as nat),
        ] + hex_of(data.drop_first())
    }
}

/// Renders `data` as lower-case hexadecimal, two digits per byte.
pub fn to_hex(data: &Vec<u8>) -> (r: String)
    ensures
        r@ == hex_of(data@),
{
    let n = data.len();
    let mut r = String::new();
    proof {
        assert(data@.skip(0) =~= data@);
        assert(Seq::<char>::empty() + hex_of(data@) =~= hex_of(data@));
    }
    let mut i: usize = 0;
    while i < n
        invariant
            n == data@.len(),
            i <= n,
            hex_of(data@) == r@ + hex_of(data@.skip(i as int)),
        decreases n - i,
    {
        let b = data[i];
        assert((b >> 4) < 16 && (b & 0x0f) < 16) by (bit_vector);
        push_char(&mut r, HEX_DIGITS[(b >> 4) as usize]);
        push_char(&mut r, HEX_DIGITS[(b & 0x0f) as usize]);
        proof {
            assert(data@.skip(i as int).first() == data@[i as int]);
            assert(data@.skip(i as int).drop_first() =~= data@.skip(i + 1));
        }
        i = i + 1;
    }
    assert(data@.skip(n as int) =~= Seq::<u8>::empty());
    assert(r@ + Seq::<char>::empty() =~= r@);
    r
}

/// The outcome of verifying a completed download.
#[derive(Clone, Copy, Debug, PartialEq, Eq, Structural)]
pub enum VerifyOutcome {
    /// Length matched, and the digest matched whenever the asset declared
    /// one. `checksum_verified` records whether a digest comparison took
    /// place at all.
    Verified { checksum_verified: bool },
    /// The number of bytes received differs from the declared length.
    SizeMismatch,
    /// The digest of the received bytes differs from the declared digest.
    DigestMismatch,
}

/// The verdict for a download whose bytes were `data`, against a declared
/// length and an optional declared digest in lower-case hexadecimal.
pub open spec fn spec_verdict(
    data: Seq<u8>,
    declared_len: nat,
    expected_hex: Option<Seq<char>>,
) -> VerifyOutcome {
    if data.len() != declared_len {
        VerifyOutcome::SizeMismatch
    } else if expected_hex is Some && hex_of(digest_of(data)) != expected_hex->0 {
        VerifyOutcome::DigestMismatch
    } else {
        VerifyOutcome::Verified { checksum_verified: expected_hex is Some }
    }
}

/// Verifies a download incrementally: each received chunk is fed in as it
/// arrives, and the verdict is computed once the stream has ended.
pub struct StreamVerifier {
    hasher: Sha256Hasher,
    received: u64,
}

impl StreamVerifier {
    /// The bytes fed in so far.
    pub closed spec fn fed(self) -> Seq<u8> {
        hasher_fed(self.hasher)
    }

    /// The byte counter agrees with the bytes fed.
    pub closed spec fn wf(self) -> bool {
        self.received == self.fed().len()
    }

    /// A verifier that has seen no bytes.
    pub fn new() -> (r: StreamVerifier)
        ensures
            r.wf(),
            r.fed() == Seq::<u8>::empty(),
    {
        StreamVerifier { hasher: Sha256Hasher::new(), received: 0 }
    }

    /// Feeds one chunk. Refuses the chunk, leaving the verifier unchanged,
    /// only when the total byte count would no longer fit in a `u64`.
    pub fn feed(&mut self, chunk: &[u8]) -> (ok: bool)
        requires
            old(self).wf(),
        ensures
            final(self).wf(),
            ok <==> old(self).fed().len() + chunk@.len() <= u64::MAX,
            ok ==> final(self).fed() == old(self).fed() + chunk@,
            !ok ==> *final(self) == *old(self),
    {
        let len = chunk.len() as u64;
        if len > u64::MAX - self.received {
            return false;
        }
        self.hasher.update(chunk);
        self.received = self.received + len;
        true
    }

    /// The verdict for the completed stream: a size mismatch when the byte
    /// count differs from `declared_len`; otherwise, when a digest was
    /// declared, a comparison of the computed digest against it; otherwise
    /// verified by length alone, with `checksum_verified` false.
    pub fn finish(self, declared_len: u64, expected_hex: Option<&String>) -> (r: VerifyOutcome)
        requires
            self.wf(),
        ensures
            r == spec_verdict(
                self.fed(),
                declared_len as nat,
                match expected_hex {
                    Some(e) => Some(e@),
                    None => None,
                },
            ),
    {
        if self.received != declared_len {
            return VerifyOutcome::SizeMismatch;
        }
        match expected_hex {
            None => VerifyOutcome::Verified { checksum_verified: false },
            Some(expected) => {
                let digest = self.hasher.finalize();
                let computed = to_hex(&digest);
                if computed.eq(expected) {
                    VerifyOutcome::Verified { checksum_verified: true }
                } else {
                    VerifyOutcome::DigestMismatch
                }
            },
        }
    }
}

} // verus!
