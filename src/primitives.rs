//! The cryptographic building blocks the channel is made of: secp256k1
//! key agreement, BLAKE3 hashing and the XChaCha20 stream cipher. Each is
//! reached through a small trusted boundary whose contract states what the
//! underlying crate computes; everything built on top of them is verified.
use crypto::symmetriccipher::SynchronousStreamCipher;
use vstd::prelude::*;

verus! {

/// Whether `bytes` is an encoding of a secp256k1 point other than the
/// identity, in one of the SEC1 forms the `sec1` crate reads: compressed,
/// uncompressed, or its compact x-only extension.
pub uninterp spec fn is_sec1_point(bytes: Seq<u8>) -> bool;

/// The 32-byte BLAKE3 digest of `input`.
pub uninterp spec fn blake3_hash(input: Seq<u8>) -> Seq<u8>;

/// Byte `pos` of BLAKE3's extendable output over `input`.
pub uninterp spec fn blake3_xof(input: Seq<u8>, pos: nat) -> u8;

/// Byte `pos` of the XChaCha20 keystream for a 32-byte key and a 24-byte
/// nonce, starting from block counter zero.
pub uninterp spec fn xchacha20_keystream(key: Seq<u8>, nonce: Seq<u8>, pos: nat) -> u8;

/// What XChaCha20 makes of `input`: each byte combined by exclusive or with
/// the keystream byte at the same position.
pub open spec fn xchacha20_apply(key: Seq<u8>, nonce: Seq<u8>, input: Seq<u8>) -> Seq<u8> {
    Seq::new(input.len(), |i: int| input[i] ^ xchacha20_keystream(key, nonce, i as nat))
}

/// The shared secret of secp256k1 Diffie-Hellman between the points that
/// `own` and `peer` encode (taken as decoded points, whatever the SEC1 form):
/// the x-coordinate of the product point, which the two points fix whichever
/// side computes it.
pub uninterp spec fn ecdh_shared(own: Seq<u8>, peer: Seq<u8>) -> Seq<u8>;

/// An ephemeral secp256k1 secret scalar. The caller draws it from a random
/// source of its choice (`EphemeralSecret::random`), so tests can use a
/// seeded one; nothing but Diffie-Hellman can be done with it.
#[verifier::external_body]
pub struct SecretScalar {
    pub secret: k256::ecdh::EphemeralSecret,
}

/// An ephemeral key pair: a secret scalar and the SEC1 encoding of its
/// public point. `new` is the only place that builds one and nothing changes
/// its fields afterwards, so `public` is always the encoding of `scalar`'s
/// public point; the contract of `agree` rests on that.
pub struct EphemeralKey {
    scalar: SecretScalar,
    public: Vec<u8>,
}

impl EphemeralKey {
    /// The public encoding is that of a valid, non-identity point.
    #[verifier::type_invariant]
    spec fn inv(&self) -> bool {
        &&& self.public@.len() == 33
        &&& is_sec1_point(self.public@)
    }

    /// The SEC1 encoding of the public point.
    pub closed spec fn public_view(&self) -> Seq<u8> {
        self.public@
    }

    /// Relies on `EphemeralSecret::public_key` and the conversion into
    /// `k256::EncodedPoint`: the compressed SEC1 encoding (33 bytes) of a
    /// valid, non-identity point.
    #[verifier::external_body]
    pub fn new(scalar: SecretScalar) -> (r: EphemeralKey)
        ensures
            r.public_view().len() == 33,
            is_sec1_point(r.public_view()),
    {
        let public = k256::EncodedPoint::from(scalar.secret.public_key()).as_bytes().to_vec();
        EphemeralKey { scalar, public }
    }

    /// A copy of the public point's encoding.
    pub fn public_encoding(&self) -> (r: Vec<u8>)
        ensures
            r@ == self.public_view(),
            r@.len() == 33,
            is_sec1_point(r@),
    {
        proof {
            use_type_invariant(self);
        }
        let mut r: Vec<u8> = Vec::new();
        let mut i: usize = 0;
        while i < self.public.len()
            invariant
                0 <= i <= self.public@.len(),
                r@ == self.public@.subrange(0, i as int),
            decreases self.public@.len() - i,
        {
            r.push(self.public[i]);
            i = i + 1;
            assert(r@ =~= self.public@.subrange(0, i as int));
        }
        assert(r@ =~= self.public@);
        r
    }

    /// Relies on `k256::PublicKey::from_sec1_bytes`, which accepts exactly the
    /// valid point encodings, then on `EphemeralSecret::diffie_hellman` and
    /// `SharedSecret::raw_secret_bytes`: the x-coordinate of the secret
    /// scalar times the peer's point. That is the Diffie-Hellman secret of
    /// the two public points, the same from either side.
    #[verifier::external_body]
    pub(crate) fn agree(&self, peer: &[u8]) -> (r: Option<[u8; 32]>)
        ensures
            r.is_some() == is_sec1_point(peer@),
            r matches Some(s) ==> s@ == ecdh_shared(self.public_view(), peer@),
            r matches Some(s) ==> s@ == ecdh_shared(peer@, self.public_view()),
    {
        let peer = k256::PublicKey::from_sec1_bytes(peer).ok()?;
        let shared = self.scalar.secret.diffie_hellman(&peer);
        Some((*shared.raw_secret_bytes()).into())
    }
}

/// Relies on `blake3::hash`: the 32-byte digest of `input`.
#[verifier::external_body]
pub(crate) fn hash32(input: &[u8]) -> (r: [u8; 32])
    ensures
        r@ == blake3_hash(input@),
{
    *blake3::hash(input).as_bytes()
}

/// Relies on `blake3::Hasher`: feeding `first` then `second` to `update`
/// hashes their concatenation, and `finalize_xof` then `fill` yield the first
/// 24 bytes of the extendable output.
#[verifier::external_body]
pub(crate) fn xof24(first: &[u8], second: &[u8; 32]) -> (r: [u8; 24])
    ensures
        forall|i: int| 0 <= i < 24 ==> #[trigger] r@[i] == blake3_xof(first@ + second@, i as nat),
{
    let mut hasher = blake3::Hasher::new();
    hasher.update(first);
    hasher.update(second);
    let mut out = [0u8; 24];
    hasher.finalize_xof().fill(&mut out);
    out
}

/// The longest input one XChaCha20 cipher can process: its 32-bit block
/// counter yields 2^32 - 1 blocks of 64 bytes before it is exhausted.
pub const MAX_STREAM_LEN: u64 = 274_877_906_880;

/// Relies on `crypto::chacha20::ChaCha20::new_xchacha20` and
/// `SynchronousStreamCipher::process` on a fresh cipher: each output byte is
/// the input byte combined by exclusive or with the keystream byte at its
/// position. Longer inputs than `MAX_STREAM_LEN` exhaust the block counter.
#[verifier::external_body]
pub(crate) fn xchacha20(key: &[u8; 32], nonce: &[u8; 24], input: &[u8]) -> (r: Vec<u8>)
    requires
        input@.len() <= MAX_STREAM_LEN,
    ensures
        r@.len() == input@.len(),
        forall|i: int|
            0 <= i < input@.len() ==> #[trigger] r@[i] == input@[i] ^ xchacha20_keystream(
                key@,
                nonce@,
                i as nat,
            ),
{
    let mut out = vec![0u8; input.len()];
    let mut cipher = crypto::chacha20::ChaCha20::new_xchacha20(key, nonce);
    cipher.process(input, &mut out);
    out
}

} // verus!
