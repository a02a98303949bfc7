//! A point-to-point secure channel: ephemeral key agreement over secp256k1,
//! a BLAKE3-derived symmetric key, and authenticated encryption whose
//! XChaCha20 nonce is the message's own BLAKE3 tag.
pub mod cipher;
pub mod error;
pub mod primitives;
pub mod session;
