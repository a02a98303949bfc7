use k256::ecdh::EphemeralSecret;
use rand::rngs::StdRng;
use rand::SeedableRng;
use xsession::cipher::{mac, open_message, seal_message, tags_equal, tamper_with, TAG_LEN};
use xsession::error::SessionError;
use xsession::primitives::{EphemeralKey, SecretScalar, MAX_STREAM_LEN};
use xsession::session::Session;

fn seeded(byte: u8) -> Session {
    let mut rng = StdRng::from_seed([byte; 32]);
    Session::new(EphemeralKey::new(SecretScalar { secret: EphemeralSecret::random(&mut rng) }))
}

fn generated() -> Session {
    let secret = EphemeralSecret::random(&mut rand::thread_rng());
    Session::new(EphemeralKey::new(SecretScalar { secret }))
}

fn agreed_pair() -> (Session, Session) {
    let mut a = seeded(1);
    let mut b = seeded(2);
    let pk_a = a.pk();
    let pk_b = b.pk();
    assert_eq!(a.set_sym_key(&pk_b), Ok(()));
    assert_eq!(b.set_sym_key(&pk_a), Ok(()));
    (a, b)
}

#[test]
fn hello_scenario() {
    let (a, b) = agreed_pair();
    let sealed = a.encrypt(b"Hello").unwrap();
    assert_eq!(sealed.len(), 29);
    assert_eq!(b.decrypt(&sealed), Ok(b"Hello".to_vec()));
    let mut flipped = sealed.clone();
    flipped[0] ^= 0x01;
    assert_eq!(b.decrypt(&flipped), Err(SessionError::MacMismatch));
}

#[test]
fn round_trip_both_directions() {
    let (a, b) = agreed_pair();
    let messages: Vec<Vec<u8>> = vec![
        Vec::new(),
        vec![0u8],
        b"Hello".to_vec(),
        (0..=255u8).collect(),
        vec![0xAB; 1000],
    ];
    for m in &messages {
        let c = a.encrypt(m).unwrap();
        assert_eq!(c.len(), m.len() + TAG_LEN);
        assert_eq!(b.decrypt(&c).unwrap(), *m);
        let c = b.encrypt(m).unwrap();
        assert_eq!(a.decrypt(&c).unwrap(), *m);
    }
}

#[test]
fn round_trip_with_generated_keys() {
    let mut a = generated();
    let mut b = generated();
    let pk_a = a.pk();
    let pk_b = b.pk();
    a.set_sym_key(&pk_b).unwrap();
    b.set_sym_key(&pk_a).unwrap();
    let c = a.encrypt(b"generated").unwrap();
    assert_eq!(b.decrypt(&c).unwrap(), b"generated".to_vec());
}

#[test]
fn agreement_gives_both_sides_the_same_key() {
    let (a, b) = agreed_pair();
    assert!(a.ready() && b.ready());
    for m in [&b""[..], b"x", b"Hello", b"a longer message of several bytes"] {
        assert_eq!(a.mac(m).unwrap(), b.mac(m).unwrap());
    }
}

#[test]
fn different_peers_give_different_keys() {
    let (a, _) = agreed_pair();
    let mut c = seeded(3);
    let d = seeded(4);
    c.set_sym_key(&d.pk()).unwrap();
    assert_ne!(a.mac(b"Hello").unwrap(), c.mac(b"Hello").unwrap());
    let sealed = a.encrypt(b"Hello").unwrap();
    assert_eq!(c.decrypt(&sealed), Err(SessionError::MacMismatch));
}

#[test]
fn every_single_bit_flip_is_detected() {
    let (a, b) = agreed_pair();
    let sealed = a.encrypt(b"Hello").unwrap();
    for i in 0..sealed.len() {
        for bit in 0..8 {
            let mut t = sealed.clone();
            t[i] ^= 1u8 << bit;
            assert_eq!(b.decrypt(&t), Err(SessionError::MacMismatch), "byte {} bit {}", i, bit);
        }
    }
}

#[test]
fn operations_before_agreement_fail() {
    let a = seeded(5);
    assert!(!a.ready());
    assert_eq!(a.encrypt(b"Hello"), Err(SessionError::SessionNotReady));
    assert_eq!(a.decrypt(&[0u8; 40]), Err(SessionError::SessionNotReady));
    assert_eq!(a.mac(b"Hello"), Err(SessionError::SessionNotReady));
}

#[test]
fn second_agreement_fails_and_keeps_the_key() {
    let (mut a, b) = agreed_pair();
    let before = a.mac(b"Hello").unwrap();
    let other = seeded(6);
    assert_eq!(a.set_sym_key(&other.pk()), Err(SessionError::AlreadyInitialized));
    assert_eq!(a.set_sym_key(&b.pk()), Err(SessionError::AlreadyInitialized));
    assert_eq!(a.mac(b"Hello").unwrap(), before);
}

#[test]
fn invalid_peer_key_is_rejected() {
    let mut a = seeded(7);
    assert_eq!(a.set_sym_key(&[]), Err(SessionError::InvalidPeerKey));
    assert_eq!(a.set_sym_key(&[0u8; 33]), Err(SessionError::InvalidPeerKey));
    let mut bad = seeded(8).pk();
    bad[0] = 0x07;
    assert_eq!(a.set_sym_key(&bad), Err(SessionError::InvalidPeerKey));
    assert!(!a.ready());
    let b = seeded(8);
    assert_eq!(a.set_sym_key(&b.pk()), Ok(()));
    assert!(a.ready());
}

#[test]
fn short_input_is_malformed() {
    let (a, b) = agreed_pair();
    assert_eq!(b.decrypt(&[]), Err(SessionError::MalformedCiphertext));
    assert_eq!(b.decrypt(&[0u8; 23]), Err(SessionError::MalformedCiphertext));
    let empty = a.encrypt(&[]).unwrap();
    assert_eq!(empty.len(), 24);
    assert_eq!(b.decrypt(&empty), Ok(Vec::new()));
    assert_eq!(b.decrypt(&[0u8; 24]), Err(SessionError::MacMismatch));
}

#[test]
fn mac_is_deterministic_and_sensitive() {
    let (a, _) = agreed_pair();
    let t1 = a.mac(b"Hello").unwrap();
    let t2 = a.mac(b"Hello").unwrap();
    assert_eq!(t1, t2);
    assert_ne!(a.mac(b"Hellp").unwrap(), t1);
    let key = [9u8; 32];
    let mut other_key = key;
    other_key[31] = 10;
    assert_eq!(mac(b"Hello", &key), mac(b"Hello", &key));
    assert_ne!(mac(b"Hello", &key), mac(b"Hello", &other_key));
    assert_ne!(mac(b"Hello", &key), mac(b"Hellp", &key));
}

#[test]
fn interleaved_calls_leave_no_residue() {
    let (a, b) = agreed_pair();
    let tag = a.mac(b"first").unwrap();
    let c1 = a.encrypt(b"second").unwrap();
    let _ = a.mac(b"third").unwrap();
    let _ = b.decrypt(&c1).unwrap();
    assert_eq!(a.mac(b"first").unwrap(), tag);
    assert_eq!(a.encrypt(b"second").unwrap(), c1);
    assert_eq!(&c1[c1.len() - 24..], &a.mac(b"second").unwrap()[..]);
}

#[test]
fn equal_messages_give_equal_ciphertexts() {
    let (a, _) = agreed_pair();
    assert_eq!(a.encrypt(b"same").unwrap(), a.encrypt(b"same").unwrap());
    assert_ne!(a.encrypt(b"same").unwrap(), a.encrypt(b"sane").unwrap());
}

#[test]
fn tag_is_appended_and_body_is_encrypted() {
    let (a, _) = agreed_pair();
    let m = b"Hello, channel";
    let c = a.encrypt(m).unwrap();
    assert_eq!(&c[m.len()..], &a.mac(m).unwrap()[..]);
    assert_ne!(&c[..m.len()], &m[..]);
}

#[test]
fn public_key_is_compressed_sec1() {
    let a = seeded(11);
    let pk = a.pk();
    assert_eq!(pk.len(), 33);
    assert!(pk[0] == 0x02 || pk[0] == 0x03);
    assert_eq!(seeded(11).pk(), pk);
    assert_ne!(seeded(12).pk(), pk);
}

#[test]
fn seal_and_open_with_a_key() {
    let key = [3u8; 32];
    let c = seal_message(&key, b"payload");
    assert_eq!(c.len(), 7 + 24);
    assert_ne!(&c[..7], b"payload");
    assert_eq!(&c[7..], &mac(b"payload", &key)[..]);
    assert_eq!(open_message(&key, &c), Ok(b"payload".to_vec()));
    let mut wrong = key;
    wrong[0] = 4;
    assert_eq!(open_message(&wrong, &c), Err(SessionError::MacMismatch));
    assert_eq!(open_message(&key, &c[..24]), Err(SessionError::MacMismatch));
    assert_eq!(open_message(&key, &c[..5]), Err(SessionError::MalformedCiphertext));
}

#[test]
fn tags_compare_by_every_byte() {
    let a = [7u8; 24];
    assert!(tags_equal(&a, &a));
    for i in 0..24 {
        let mut b = a;
        b[i] ^= 0x80;
        assert!(!tags_equal(&a, &b));
    }
}

#[test]
fn tampering_a_byte_is_detected() {
    let (a, b) = agreed_pair();
    let sealed = a.encrypt(b"Hello").unwrap();
    let mut t = sealed.clone();
    tamper_with(&mut t, 28, sealed[28].wrapping_add(1));
    assert_eq!(t.len(), sealed.len());
    assert_ne!(t, sealed);
    assert_eq!(&t[..28], &sealed[..28]);
    assert_eq!(b.decrypt(&t), Err(SessionError::MacMismatch));
}

#[test]
fn stream_limit_is_the_block_counter_range() {
    assert_eq!(MAX_STREAM_LEN, 64 * (u32::MAX as u64));
}

#[test]
fn key_pair_encoding_is_kept_by_the_session() {
    let mut rng = StdRng::from_seed([21u8; 32]);
    let key = EphemeralKey::new(SecretScalar { secret: EphemeralSecret::random(&mut rng) });
    let encoding = key.public_encoding();
    let s = Session::new(key);
    assert_eq!(s.pk(), encoding);
    assert!(!s.ready());
}
