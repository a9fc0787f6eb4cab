use vstd::prelude::*;

verus! {

/// The 32-byte BLAKE3 keyed hash of a message under a 32-byte key.
pub uninterp spec fn blake3_keyed_hash(key: Seq<u8>, msg: Seq<u8>) -> Seq<u8>;

/// The Ed25519 public key (compressed point) that belongs to a 32-byte seed.
pub uninterp spec fn ed25519_public(seed: Seq<u8>) -> Seq<u8>;

/// The Ed25519 signature of a message under the signing key with that seed.
pub uninterp spec fn ed25519_signature(seed: Seq<u8>, msg: Seq<u8>) -> Seq<u8>;

/// Whether 32 bytes decompress to a point of the curve, so that they can
/// serve as a verifying key.
pub uninterp spec fn ed25519_point(pk: Seq<u8>) -> bool;

/// Whether the verifying key accepts the signature over the message.
pub uninterp spec fn ed25519_accepts(pk: Seq<u8>, msg: Seq<u8>, sig: Seq<u8>) -> bool;

/// The ChaCha20-Poly1305 ciphertext (with its 16-byte tag) of a message.
pub uninterp spec fn chacha_sealed(key: Seq<u8>, nonce: Seq<u8>, msg: Seq<u8>) -> Seq<u8>;

/// The plaintext of a ChaCha20-Poly1305 ciphertext, or `None` where the
/// tag does not verify.
pub uninterp spec fn chacha_opened(key: Seq<u8>, nonce: Seq<u8>, ct: Seq<u8>) -> Option<Seq<u8>>;

/// The number of 64-byte blocks below which the cipher accepts a message.
pub const CHACHA_MAX_BLOCKS: usize = 4294967295;

/// Relies on `blake3::keyed_hash`: a 32-byte digest that depends on the key
/// and the message alone.
#[verifier::external_body]
pub(crate) fn keyed_hash(key: &[u8; 32], msg: &[u8]) -> (r: [u8; 32])
    ensures
        r@ == blake3_keyed_hash(key@, msg@),
{
    *blake3::keyed_hash(key, msg).as_bytes()
}

/// Relies on `ed25519_dalek::SigningKey::verifying_key` (of the key built by
/// `SigningKey::from_bytes`): the compressed public point of the seed, which
/// always decompresses again.
#[verifier::external_body]
pub(crate) fn ed25519_public_key(seed: &[u8; 32]) -> (r: [u8; 32])
    ensures
        r@ == ed25519_public(seed@),
        ed25519_point(r@),
{
    ed25519_dalek::SigningKey::from_bytes(seed).verifying_key().to_bytes()
}

/// Relies on `<ed25519_dalek::SigningKey as Signer>::sign`: the deterministic
/// RFC 8032 signature, which the seed's own verifying key accepts.
#[verifier::external_body]
pub(crate) fn ed25519_sign(seed: &[u8; 32], msg: &[u8]) -> (r: [u8; 64])
    ensures
        r@ == ed25519_signature(seed@, msg@),
        ed25519_accepts(ed25519_public(seed@), msg@, r@),
{
    let key = ed25519_dalek::SigningKey::from_bytes(seed);
    ed25519_dalek::Signer::sign(&key, msg).to_bytes()
}

/// Relies on `ed25519_dalek::VerifyingKey::from_bytes`: it succeeds exactly
/// on the bytes of a curve point.
#[verifier::external_body]
pub(crate) fn ed25519_point_check(pk: &[u8; 32]) -> (r: bool)
    ensures
        r == ed25519_point(pk@),
{
    ed25519_dalek::VerifyingKey::from_bytes(pk).is_ok()
}

/// Relies on `<ed25519_dalek::VerifyingKey as Verifier>::verify`, on the key
/// that `VerifyingKey::from_bytes` builds from a valid point.
#[verifier::external_body]
pub(crate) fn ed25519_verify(pk: &[u8; 32], msg: &[u8], sig: &[u8; 64]) -> (r: bool)
    requires
        ed25519_point(pk@),
    ensures
        r == ed25519_accepts(pk@, msg@, sig@),
{
    let signature = ed25519_dalek::Signature::from_bytes(sig);
    match ed25519_dalek::VerifyingKey::from_bytes(pk) {
        Ok(key) => ed25519_dalek::Verifier::verify(&key, msg, &signature).is_ok(),
        Err(_) => false,
    }
}

/// Relies on `ed25519_dalek::SigningKey::generate` with the operating
/// system's random source: a fresh seed, of which nothing more is known.
#[verifier::external_body]
pub(crate) fn ed25519_fresh_seed() -> (r: [u8; 32]) {
    ed25519_dalek::SigningKey::generate(&mut rand::rngs::OsRng).to_bytes()
}

/// Relies on `<ChaCha20Poly1305 as Aead>::encrypt` with empty associated
/// data: it refuses a message of `CHACHA_MAX_BLOCKS` blocks or more, and
/// otherwise returns the message's length plus a 16-byte tag, which
/// decryption under the same key and nonce opens to the message.
#[verifier::external_body]
pub(crate) fn chacha_encrypt(key: &[u8; 32], nonce: &[u8; 12], msg: &[u8]) -> (r: Option<Vec<u8>>)
    ensures
        r is Some <==> msg@.len() / 64 < CHACHA_MAX_BLOCKS,
        r matches Some(c) ==> c@ == chacha_sealed(key@, nonce@, msg@) && c@.len() == msg@.len()
            + 16 && chacha_opened(key@, nonce@, c@) == Some(msg@),
{
    let cipher = <chacha20poly1305::ChaCha20Poly1305 as chacha20poly1305::KeyInit>::new(key.into());
    chacha20poly1305::aead::Aead::encrypt(&cipher, nonce.into(), msg).ok()
}

/// Relies on `<ChaCha20Poly1305 as Aead>::decrypt` with empty associated
/// data: the plaintext where the tag verifies, an error otherwise.
#[verifier::external_body]
pub(crate) fn chacha_decrypt(key: &[u8; 32], nonce: &[u8; 12], ct: &[u8]) -> (r: Option<Vec<u8>>)
    ensures
        match r {
            Some(p) => chacha_opened(key@, nonce@, ct@) == Some(p@),
            None => chacha_opened(key@, nonce@, ct@) is None,
        },
{
    let cipher = <chacha20poly1305::ChaCha20Poly1305 as chacha20poly1305::KeyInit>::new(key.into());
    chacha20poly1305::aead::Aead::decrypt(&cipher, nonce.into(), ct).ok()
}

/// Relies on `rand::Rng::gen_range` over `0..n` with the thread's generator:
/// some index below `n`, which must not be zero.
#[verifier::external_body]
pub(crate) fn random_below(n: usize) -> (r: usize)
    requires
        n > 0,
    ensures
        r < n,
{
    rand::Rng::gen_range(&mut rand::thread_rng(), 0..n)
}

/// Relies on `rand::seq::SliceRandom::shuffle` with the thread's generator:
/// the same bytes in some order.
#[verifier::external_body]
pub(crate) fn shuffle_bytes(v: &mut Vec<u8>)
    ensures
        final(v)@.to_multiset() == old(v)@.to_multiset(),
{
    rand::seq::SliceRandom::shuffle(v.as_mut_slice(), &mut rand::thread_rng())
}

} // verus!
