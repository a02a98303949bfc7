//! The authenticated cipher: a BLAKE3 tag over the message and the key,
//! used as the XChaCha20 nonce, and appended to the ciphertext.
//!
//! Sealing the same message twice under the same key gives the same bytes:
//! the nonce is the message's own tag, so equal messages are visible as such.
use crate::error::SessionError;
use crate::primitives::{blake3_xof, xchacha20, xchacha20_apply, xof24, MAX_STREAM_LEN};
use vstd::prelude::*;

verus! {

/// Length of a tag, and of the nonce it doubles as.
pub const TAG_LEN: usize = 24;

/// The tag of message `m` under key `k`: the first 24 bytes of BLAKE3's
/// extendable output over `m` followed by `k`.
pub open spec fn mac_tag(m: Seq<u8>, k: Seq<u8>) -> Seq<u8> {
    Seq::new(24, |i: int| blake3_xof(m + k, i as nat))
}

/// The wire form of message `m` under key `k`: the message run through
/// XChaCha20 with its own tag as nonce, then the tag.
pub open spec fn seal(k: Seq<u8>, m: Seq<u8>) -> Seq<u8> {
    xchacha20_apply(k, mac_tag(m, k), m) + mac_tag(m, k)
}

/// The tag carried by wire bytes `c` (its last 24 bytes).
pub open spec fn carried_tag(c: Seq<u8>) -> Seq<u8> {
    c.subrange(c.len() - 24, c.len() as int)
}

/// The encrypted body carried by wire bytes `c` (all but its last 24 bytes).
pub open spec fn carried_body(c: Seq<u8>) -> Seq<u8> {
    c.subrange(0, c.len() - 24)
}

/// What opening wire bytes `c` under key `k` gives: the candidate message
/// when its recomputed tag matches the carried one, an error otherwise.
pub open spec fn open(k: Seq<u8>, c: Seq<u8>) -> Result<Seq<u8>, SessionError> {
    if c.len() < 24 {
        Err(SessionError::MalformedCiphertext)
    } else {
        let p = xchacha20_apply(k, carried_tag(c), carried_body(c));
        if mac_tag(p, k) == carried_tag(c) {
            Ok(p)
        } else {
            Err(SessionError::MacMismatch)
        }
    }
}

/// The view of a byte-vector result.
pub open spec fn bytes_result(r: Result<Vec<u8>, SessionError>) -> Result<Seq<u8>, SessionError> {
    match r {
        Ok(v) => Ok(v@),
        Err(e) => Err(e),
    }
}

/// Computes the tag of `plain` under `key`.
pub fn mac(plain: &[u8], key: &[u8; 32]) -> (r: [u8; 24])
    ensures
        r@ == mac_tag(plain@, key@),
{
    let r = xof24(plain, key);
    assert(r@ =~= mac_tag(plain@, key@));
    r
}

/// Compares two tags in time that does not depend on where they differ.
pub fn tags_equal(a: &[u8; 24], b: &[u8; 24]) -> (r: bool)
    ensures
        r == (a@ == b@),
{
    let mut diff: u8 = 0;
    let mut i: usize = 0;
    while i < TAG_LEN
        invariant
            0 <= i <= 24,
            (diff == 0) == (forall|j: int| 0 <= j < i ==> a@[j] == b@[j]),
        decreases 24 - i,
    {
        let x: u8 = a[i];
        let y: u8 = b[i];
        assert((diff | (x ^ y)) == 0 <==> (diff == 0 && x == y)) by (bit_vector);
        diff = diff | (x ^ y);
        i = i + 1;
    }
    if diff == 0 {
        assert(a@ =~= b@);
    }
    diff == 0
}

/// Encrypts `plain` under `key`: ciphertext of the same length, then the tag.
pub fn seal_message(key: &[u8; 32], plain: &[u8]) -> (r: Vec<u8>)
    requires
        plain@.len() <= MAX_STREAM_LEN,
    ensures
        r@ == seal(key@, plain@),
        r@.len() == plain@.len() + 24,
{
    let tag = mac(plain, key);
    let mut out = xchacha20(key, &tag, plain);
    assert(out@ =~= xchacha20_apply(key@, tag@, plain@));
    let mut i: usize = 0;
    while i < TAG_LEN
        invariant
            0 <= i <= 24,
            tag@ == mac_tag(plain@, key@),
            out@ =~= xchacha20_apply(key@, tag@, plain@) + tag@.subrange(0, i as int),
        decreases 24 - i,
    {
        out.push(tag[i]);
        i = i + 1;
    }
    assert(tag@.subrange(0, 24) =~= tag@);
    out
}

/// Decrypts wire bytes `input` under `key`, returning the message only when
/// the tag it carries is the tag of what it decrypts to.
pub fn open_message(key: &[u8; 32], input: &[u8]) -> (r: Result<Vec<u8>, SessionError>)
    requires
        input@.len() <= MAX_STREAM_LEN + 24,
    ensures
        bytes_result(r) == open(key@, input@),
{
    if input.len() < TAG_LEN {
        return Err(SessionError::MalformedCiphertext);
    }
    let split: usize = input.len() - TAG_LEN;
    let mut tag = [0u8; 24];
    let mut i: usize = 0;
    while i < TAG_LEN
        invariant
            0 <= i <= 24,
            split + 24 == input@.len(),
            input@.len() <= usize::MAX,
            forall|j: int| 0 <= j < i ==> tag@[j] == input@[split + j],
        decreases 24 - i,
    {
        tag[i] = input[split + i];
        i = i + 1;
    }
    assert(tag@ =~= carried_tag(input@));
    let body = vstd::slice::slice_subrange(input, 0, split);
    let candidate = xchacha20(key, &tag, body);
    assert(candidate@ =~= xchacha20_apply(key@, carried_tag(input@), carried_body(input@)));
    let expected = mac(candidate.as_slice(), key);
    if tags_equal(&expected, &tag) {
        Ok(candidate)
    } else {
        Err(SessionError::MacMismatch)
    }
}

/// Overwrites byte `index` of wire bytes with `value`, as a transport
/// fault or an attacker would.
pub fn tamper_with(bytes: &mut Vec<u8>, index: usize, value: u8)
    requires
        index < old(bytes)@.len(),
    ensures
        final(bytes)@ == old(bytes)@.update(index as int, value),
{
    bytes.set(index, value);
}

/// Running XChaCha20 twice with one key and nonce gives the input back.
pub proof fn lemma_apply_twice(k: Seq<u8>, n: Seq<u8>, s: Seq<u8>)
    ensures
        xchacha20_apply(k, n, xchacha20_apply(k, n, s)) == s,
{
    let once = xchacha20_apply(k, n, s);
    let twice = xchacha20_apply(k, n, once);
    assert forall|i: int| 0 <= i < s.len() implies twice[i] == s[i] by {
        let x: u8 = s[i];
        let y: u8 = crate::primitives::xchacha20_keystream(k, n, i as nat);
        assert((x ^ y) ^ y == x) by (bit_vector);
    }
    assert(twice =~= s);
}

/// Opening what was sealed under a key, with that key, gives the message back.
pub proof fn lemma_round_trip(k: Seq<u8>, m: Seq<u8>)
    ensures
        open(k, seal(k, m)) == Ok::<Seq<u8>, SessionError>(m),
        seal(k, m).len() == m.len() + 24,
{
    let t = mac_tag(m, k);
    let c = seal(k, m);
    assert(carried_tag(c) =~= t);
    assert(carried_body(c) =~= xchacha20_apply(k, t, m));
    lemma_apply_twice(k, t, m);
}

/// Whatever opening accepts is exactly the sealing of what it returns: no
/// wire bytes other than `seal(k, p)` open to `p`.
pub proof fn lemma_accepted_is_sealed(k: Seq<u8>, c: Seq<u8>)
    ensures
        open(k, c) matches Ok(p) ==> seal(k, p) == c,
{
    if let Ok(p) = open(k, c) {
        let t = carried_tag(c);
        lemma_apply_twice(k, t, carried_body(c));
        assert(c =~= carried_body(c) + t);
    }
}

/// Altering sealed bytes without changing their length never yields the
/// sealed message: opening either reports a tag mismatch, or returns a
/// different message whose own sealing is exactly the altered bytes.
pub proof fn lemma_tamper_detected(k: Seq<u8>, m: Seq<u8>, c: Seq<u8>)
    requires
        c.len() == seal(k, m).len(),
        c != seal(k, m),
    ensures
        open(k, c) != Ok::<Seq<u8>, SessionError>(m),
        open(k, c) == Err::<Seq<u8>, SessionError>(SessionError::MacMismatch) || (open(k, c) matches Ok(
            p,
        ) && p != m && seal(k, p) == c),
{
    lemma_round_trip(k, m);
    lemma_accepted_is_sealed(k, c);
}

/// The tag depends on the message and the key alone.
pub proof fn lemma_mac_deterministic(m1: Seq<u8>, k1: Seq<u8>, m2: Seq<u8>, k2: Seq<u8>)
    requires
        m1 == m2,
        k1 == k2,
    ensures
        mac_tag(m1, k1) == mac_tag(m2, k2),
{
}

} // verus!
