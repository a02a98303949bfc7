//! One party's end of the channel: an ephemeral key pair, the symmetric key
//! agreed with the peer, and the operations that are legal once it is set.
use crate::cipher::{bytes_result, mac, mac_tag, open, open_message, seal, seal_message};
use crate::error::SessionError;
use crate::primitives::{blake3_hash, ecdh_shared, hash32, is_sec1_point, EphemeralKey, MAX_STREAM_LEN};
use vstd::prelude::*;

verus! {

/// The all-zero key a session holds before key agreement.
pub open spec fn zero_key() -> Seq<u8> {
    Seq::new(32, |i: int| 0u8)
}

/// A session of the secure channel.
///
/// It starts out not ready; one successful key agreement makes it ready for
/// good, and only then do tagging, encryption and decryption succeed.
pub struct Session {
    ready: bool,
    secret: EphemeralKey,
    key: [u8; 32],
}

impl Session {
    /// Whether key agreement has completed.
    pub closed spec fn is_ready(&self) -> bool {
        self.ready
    }

    /// The symmetric key (all zero until key agreement).
    pub closed spec fn sym_key(&self) -> Seq<u8> {
        self.key@
    }

    /// The SEC1 encoding of this session's public key.
    pub closed spec fn public_key_bytes(&self) -> Seq<u8> {
        self.secret.public_view()
    }

    /// The session's invariant: the key is zero until agreement.
    pub open spec fn wf(&self) -> bool {
        &&& self.sym_key().len() == 32
        &&& !self.is_ready() ==> self.sym_key() == zero_key()
    }

    /// Whether this session completed key agreement with the peer whose
    /// public key encoding is `peer`: its key is the BLAKE3 digest of the
    /// Diffie-Hellman secret of the two public points, taken from either side.
    pub open spec fn agreed_with(&self, peer: Seq<u8>) -> bool {
        &&& self.is_ready()
        &&& self.sym_key() == blake3_hash(ecdh_shared(self.public_key_bytes(), peer))
        &&& self.sym_key() == blake3_hash(ecdh_shared(peer, self.public_key_bytes()))
    }

    /// Starts a session around a freshly generated ephemeral key pair.
    pub fn new(secret: EphemeralKey) -> (s: Session)
        ensures
            s.wf(),
            !s.is_ready(),
            s.sym_key() == zero_key(),
            s.public_key_bytes() == secret.public_view(),
    {
        let s = Session { ready: false, secret, key: [0u8; 32] };
        assert(s.key@ =~= zero_key());
        s
    }

    /// The public key encoding to hand to the peer.
    pub fn pk(&self) -> (r: Vec<u8>)
        ensures
            r@ == self.public_key_bytes(),
            r@.len() == 33,
            is_sec1_point(r@),
    {
        self.secret.public_encoding()
    }

    /// Whether key agreement has completed.
    pub fn ready(&self) -> (r: bool)
        ensures
            r == self.is_ready(),
    {
        self.ready
    }

    /// Agrees on the symmetric key with the peer whose public key encoding
    /// is `peer`: the BLAKE3 digest of the raw Diffie-Hellman secret.
    ///
    /// Fails, leaving the session as it was, when agreement already happened
    /// or when `peer` is not a valid curve point.
    pub fn set_sym_key(&mut self, peer: &[u8]) -> (r: Result<(), SessionError>)
        requires
            old(self).wf(),
        ensures
            final(self).wf(),
            final(self).public_key_bytes() == old(self).public_key_bytes(),
            old(self).is_ready() ==> r == Err::<(), SessionError>(SessionError::AlreadyInitialized)
                && *final(self) == *old(self),
            !old(self).is_ready() && !is_sec1_point(peer@) ==> r == Err::<(), SessionError>(
                SessionError::InvalidPeerKey,
            ) && *final(self) == *old(self),
            !old(self).is_ready() && is_sec1_point(peer@) ==> r == Ok::<(), SessionError>(())
                && final(self).agreed_with(peer@),
    {
        if self.ready {
            return Err(SessionError::AlreadyInitialized);
        }
        match self.secret.agree(peer) {
            None => Err(SessionError::InvalidPeerKey),
            Some(shared) => {
                self.key = hash32(&shared);
                self.ready = true;
                Ok(())
            },
        }
    }

    /// The tag of `plain` under the session key.
    pub fn mac(&self, plain: &[u8]) -> (r: Result<[u8; 24], SessionError>)
        ensures
            !self.is_ready() ==> r == Err::<[u8; 24], SessionError>(SessionError::SessionNotReady),
            self.is_ready() ==> (r matches Ok(t) && t@ == mac_tag(plain@, self.sym_key())),
    {
        if !self.ready {
            return Err(SessionError::SessionNotReady);
        }
        Ok(mac(plain, &self.key))
    }

    /// Encrypts `plain` for the peer: the ciphertext, then the 24-byte tag.
    pub fn encrypt(&self, plain: &[u8]) -> (r: Result<Vec<u8>, SessionError>)
        requires
            plain@.len() <= MAX_STREAM_LEN,
        ensures
            !self.is_ready() ==> r == Err::<Vec<u8>, SessionError>(SessionError::SessionNotReady),
            self.is_ready() ==> (r matches Ok(c) && c@ == seal(self.sym_key(), plain@) && c@.len()
                == plain@.len() + 24),
    {
        if !self.ready {
            return Err(SessionError::SessionNotReady);
        }
        Ok(seal_message(&self.key, plain))
    }

    /// Decrypts wire bytes from the peer, returning the message only if the
    /// tag it carries is the tag of what it decrypts to.
    pub fn decrypt(&self, input: &[u8]) -> (r: Result<Vec<u8>, SessionError>)
        requires
            input@.len() <= MAX_STREAM_LEN + 24,
        ensures
            !self.is_ready() ==> r == Err::<Vec<u8>, SessionError>(SessionError::SessionNotReady),
            self.is_ready() ==> bytes_result(r) == open(self.sym_key(), input@),
    {
        if !self.ready {
            return Err(SessionError::SessionNotReady);
        }
        open_message(&self.key, input)
    }
}

/// Two sessions that completed key agreement with each other's public keys
/// hold the same symmetric key.
pub proof fn lemma_agreement_symmetric(a: Session, b: Session)
    requires
        a.agreed_with(b.public_key_bytes()),
        b.agreed_with(a.public_key_bytes()),
    ensures
        a.sym_key() == b.sym_key(),
        a.sym_key().len() == 32,
{
}

/// Two sessions that completed key agreement with each other's public keys:
/// what one encrypts, the other decrypts to the same message.
pub proof fn lemma_session_round_trip(a: Session, b: Session, m: Seq<u8>)
    requires
        a.agreed_with(b.public_key_bytes()),
        b.agreed_with(a.public_key_bytes()),
    ensures
        open(b.sym_key(), seal(a.sym_key(), m)) == Ok::<Seq<u8>, SessionError>(m),
{
    crate::cipher::lemma_round_trip(a.sym_key(), m);
}

} // verus!
