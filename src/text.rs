use crate::codec::{b64_decoded, b64_encoded, decode_url_safe, encodable_len, encode_url_safe};
use crate::cli::text::TextSignFormat;
use crate::error::TextError;
use crate::gen_pass::{is_password, process_genpass};
use crate::primitives::{
    blake3_keyed_hash, chacha_decrypt, chacha_encrypt, chacha_opened, chacha_sealed, ed25519_accepts,
    ed25519_fresh_seed, ed25519_point, ed25519_point_check, ed25519_public, ed25519_public_key,
    ed25519_sign, ed25519_signature, ed25519_verify, keyed_hash, CHACHA_MAX_BLOCKS,
};
use vstd::prelude::*;
use vstd::utf8::{encode_utf8, valid_utf8};

verus! {

/// Copies the `N` bytes of `b` that start at `start` into an array.
fn array_at<const N: usize>(b: &[u8], start: usize) -> (r: [u8; N])
    requires
        start + N <= b@.len(),
    ensures
        r@ == b@.subrange(start as int, start + N),
{
    let mut a: [u8; N] = [0u8; N];
    let len = b.len();
    let mut i: usize = 0;
    while i < N
        invariant
            i <= N,
            len == b@.len(),
            start + N <= b@.len(),
            a@.len() == N,
            forall|j: int| 0 <= j < i ==> a@[j] == b@[start + j],
        decreases N - i,
    {
        a[i] = b[start + i];
        i += 1;
    }
    assert(a@ =~= b@.subrange(start as int, start + N));
    a
}

/// Copies an array into a new vector.
fn array_to_vec<const N: usize>(a: &[u8; N]) -> (r: Vec<u8>)
    ensures
        r@ == a@,
{
    vstd::slice::slice_to_vec(a.as_slice())
}


/// Signs a whole message.
pub trait TextSign {
    /// Whether `sig` is the signature that this signer gives for `msg`.
    spec fn signs(&self, msg: Seq<u8>, sig: Seq<u8>) -> bool;

    /// Signs the message and returns the raw signature bytes.
    fn sign(&self, msg: &[u8]) -> (r: Vec<u8>)
        ensures
            self.signs(msg@, r@),
    ;
}

/// Checks a signature over a whole message.
pub trait TextVerify {
    /// What checking `sig` over `msg` reports.
    spec fn verify_outcome(&self, msg: Seq<u8>, sig: Seq<u8>) -> Result<bool, TextError>;

    /// Checks the signature: `Ok(false)` for a well-formed one that does not
    /// match, an error for one that is malformed.
    fn verify(&self, msg: &[u8], sig: &[u8]) -> (r: Result<bool, TextError>)
        ensures
            r == self.verify_outcome(msg@, sig@),
    ;
}

/// Builds a key from the raw bytes of a key file.
pub trait KeyLoader: Sized {
    /// Whether `r` is what loading `bytes` gives.
    spec fn loads(bytes: Seq<u8>, r: Result<Self, TextError>) -> bool;

    /// Validates the bytes and builds the key from them.
    fn load(bytes: &[u8]) -> (r: Result<Self, TextError>)
        ensures
            Self::loads(bytes@, r),
    ;
}

/// Produces fresh key material, as the raw bytes of the files to write.
pub trait KeyGenerator {
    /// Whether `keys` is a possible outcome of generation.
    spec fn generated(keys: Seq<Seq<u8>>) -> bool;

    /// Generates the key files' contents, in the order in which they are
    /// written.
    fn generate() -> (r: Vec<Vec<u8>>)
        ensures
            Self::generated(r@.map_values(|k: Vec<u8>| k@)),
    ;
}

/// The keyed-hash (BLAKE3) signer and verifier, holding a 32-byte key.
pub struct Blake3 {
    key: [u8; 32],
}

impl View for Blake3 {
    type V = Seq<u8>;

    /// The 32 key bytes.
    closed spec fn view(&self) -> Seq<u8> {
        self.key@
    }
}

impl Blake3 {
    /// Builds the engine from a 32-byte key.
    pub fn new(key: [u8; 32]) -> (r: Self)
        ensures
            r@ == key@,
    {
        Blake3 { key }
    }

    /// Builds the engine from the first 32 bytes of `key`; fails with
    /// `KeyError` when fewer than 32 are given. Bytes past the 32nd are
    /// ignored.
    pub fn try_new(key: &[u8]) -> (r: Result<Self, TextError>)
        ensures
            Self::loads(key@, r),
    {
        if key.len() < 32 {
            Err(TextError::KeyError)
        } else {
            Ok(Blake3::new(array_at::<32>(key, 0)))
        }
    }
}

/// The MAC of a message: its BLAKE3 keyed hash.
pub open spec fn mac_of(key: Seq<u8>, msg: Seq<u8>) -> Seq<u8> {
    blake3_keyed_hash(key, msg)
}

impl TextSign for Blake3 {
    open spec fn signs(&self, msg: Seq<u8>, sig: Seq<u8>) -> bool {
        &&& sig == mac_of(self@, msg)
        &&& sig.len() == 32
    }

    fn sign(&self, msg: &[u8]) -> (r: Vec<u8>) {
        let digest = keyed_hash(&self.key, msg);
        array_to_vec(&digest)
    }
}

impl TextVerify for Blake3 {
    /// A signature is accepted exactly when it equals the recomputed digest;
    /// a signature of the wrong length simply does not match.
    open spec fn verify_outcome(&self, msg: Seq<u8>, sig: Seq<u8>) -> Result<bool, TextError> {
        Ok(mac_of(self@, msg) == sig)
    }

    fn verify(&self, msg: &[u8], sig: &[u8]) -> (r: Result<bool, TextError>) {
        let digest = keyed_hash(&self.key, msg);
        Ok(bytes_equal(digest.as_slice(), sig))
    }
}

impl KeyLoader for Blake3 {
    open spec fn loads(bytes: Seq<u8>, r: Result<Self, TextError>) -> bool {
        match r {
            Ok(k) => bytes.len() >= 32 && k@ == bytes.subrange(0, 32),
            Err(e) => bytes.len() < 32 && e == TextError::KeyError,
        }
    }

    fn load(bytes: &[u8]) -> (r: Result<Self, TextError>) {
        Self::try_new(bytes)
    }
}

impl KeyGenerator for Blake3 {
    /// One 32-byte key: a password drawn from every character class, whose
    /// character bytes serve as the key.
    open spec fn generated(keys: Seq<Seq<u8>>) -> bool {
        &&& keys.len() == 1
        &&& is_password(keys[0], 32, true, true, true, true)
    }

    fn generate() -> (r: Vec<Vec<u8>>) {
        let key = process_genpass(32, true, true, true, true);
        let r = vec![key];
        assert(r@.map_values(|k: Vec<u8>| k@) =~= seq![key@]);
        r
    }
}

/// Compares two byte strings for equality, length included. It stops at the
/// first differing byte, so its running time is not constant.
fn bytes_equal(a: &[u8], b: &[u8]) -> (r: bool)
    ensures
        r == (a@ == b@),
{
    if a.len() != b.len() {
        return false;
    }
    let mut i: usize = 0;
    while i < a.len()
        invariant
            i <= a@.len(),
            a@.len() == b@.len(),
            forall|j: int| 0 <= j < i ==> a@[j] == b@[j],
        decreases a@.len() - i,
    {
        if a[i] != b[i] {
            return false;
        }
        i += 1;
    }
    assert(a@ =~= b@);
    true
}

/// The Ed25519 signer, holding a 32-byte secret seed.
pub struct Ed25519Signer {
    key: [u8; 32],
}

impl View for Ed25519Signer {
    type V = Seq<u8>;

    /// The 32 seed bytes.
    closed spec fn view(&self) -> Seq<u8> {
        self.key@
    }
}

impl Ed25519Signer {
    /// Builds the signer from a 32-byte seed.
    pub fn new(key: [u8; 32]) -> (r: Self)
        ensures
            r@ == key@,
    {
        Ed25519Signer { key }
    }

    /// Builds the signer from the first 32 bytes of `key`; fails with
    /// `KeyError` when fewer than 32 are given.
    pub fn try_new(key: &[u8]) -> (r: Result<Self, TextError>)
        ensures
            Self::loads(key@, r),
    {
        if key.len() < 32 {
            Err(TextError::KeyError)
        } else {
            Ok(Ed25519Signer::new(array_at::<32>(key, 0)))
        }
    }
}

impl TextSign for Ed25519Signer {
    /// The signature is the scheme's signature under the seed, and the
    /// seed's public key accepts it.
    open spec fn signs(&self, msg: Seq<u8>, sig: Seq<u8>) -> bool {
        &&& sig == ed25519_signature(self@, msg)
        &&& sig.len() == 64
        &&& ed25519_accepts(ed25519_public(self@), msg, sig)
    }

    fn sign(&self, msg: &[u8]) -> (r: Vec<u8>) {
        let sig = ed25519_sign(&self.key, msg);
        array_to_vec(&sig)
    }
}

impl KeyLoader for Ed25519Signer {
    open spec fn loads(bytes: Seq<u8>, r: Result<Self, TextError>) -> bool {
        match r {
            Ok(k) => bytes.len() >= 32 && k@ == bytes.subrange(0, 32),
            Err(e) => bytes.len() < 32 && e == TextError::KeyError,
        }
    }

    fn load(bytes: &[u8]) -> (r: Result<Self, TextError>) {
        Self::try_new(bytes)
    }
}

impl KeyGenerator for Ed25519Signer {
    /// A secret seed of 32 bytes, then the 32-byte public key that belongs
    /// to it.
    open spec fn generated(keys: Seq<Seq<u8>>) -> bool {
        &&& keys.len() == 2
        &&& keys[0].len() == 32
        &&& keys[1] == ed25519_public(keys[0])
        &&& keys[1].len() == 32
        &&& ed25519_point(keys[1])
    }

    fn generate() -> (r: Vec<Vec<u8>>) {
        let seed = ed25519_fresh_seed();
        let public = ed25519_public_key(&seed);
        let sk = array_to_vec(&seed);
        let pk = array_to_vec(&public);
        let r = vec![sk, pk];
        assert(r@.map_values(|k: Vec<u8>| k@) =~= seq![seed@, public@]);
        r
    }
}

/// The Ed25519 verifier, holding the 32 bytes of a valid curve point.
pub struct Ed25519Verifier {
    key: [u8; 32],
}

impl View for Ed25519Verifier {
    type V = Seq<u8>;

    /// The 32 public key bytes.
    closed spec fn view(&self) -> Seq<u8> {
        self.key@
    }
}

impl Ed25519Verifier {
    #[verifier::type_invariant]
    spec fn inv(&self) -> bool {
        ed25519_point(self.key@)
    }

    /// Builds the verifier from the bytes of a curve point.
    pub fn new(key: [u8; 32]) -> (r: Self)
        requires
            ed25519_point(key@),
        ensures
            r@ == key@,
    {
        Ed25519Verifier { key }
    }

    /// Builds the verifier from the first 32 bytes of `key`; fails with
    /// `KeyError` when fewer are given or when they are not a curve point.
    pub fn try_new(key: &[u8]) -> (r: Result<Self, TextError>)
        ensures
            Self::loads(key@, r),
    {
        if key.len() < 32 {
            return Err(TextError::KeyError);
        }
        let bytes = array_at::<32>(key, 0);
        if ed25519_point_check(&bytes) {
            Ok(Ed25519Verifier::new(bytes))
        } else {
            Err(TextError::KeyError)
        }
    }
}

impl TextVerify for Ed25519Verifier {
    /// A signature of any length but 64 is malformed; one of 64 bytes is
    /// checked by the scheme.
    open spec fn verify_outcome(&self, msg: Seq<u8>, sig: Seq<u8>) -> Result<bool, TextError> {
        if sig.len() != 64 {
            Err(TextError::VerificationError)
        } else {
            Ok(ed25519_accepts(self@, msg, sig))
        }
    }

    fn verify(&self, msg: &[u8], sig: &[u8]) -> (r: Result<bool, TextError>) {
        proof {
            use_type_invariant(self);
        }
        if sig.len() != 64 {
            return Err(TextError::VerificationError);
        }
        let sig_bytes = array_at::<64>(sig, 0);
        assert(sig_bytes@ =~= sig@);
        Ok(ed25519_verify(&self.key, msg, &sig_bytes))
    }
}

impl KeyLoader for Ed25519Verifier {
    open spec fn loads(bytes: Seq<u8>, r: Result<Self, TextError>) -> bool {
        match r {
            Ok(k) => bytes.len() >= 32 && k@ == bytes.subrange(0, 32) && ed25519_point(k@),
            Err(e) => e == TextError::KeyError && (bytes.len() < 32 || !ed25519_point(
                bytes.subrange(0, 32),
            )),
        }
    }

    fn load(bytes: &[u8]) -> (r: Result<Self, TextError>) {
        Self::try_new(bytes)
    }
}


/// The authenticated cipher engine (ChaCha20-Poly1305), holding a 32-byte
/// key and the 12-byte nonce that every encryption under it uses.
pub struct ChaCha20Poly1305Engine {
    key: [u8; 32],
    nonce: [u8; 12],
}

impl ChaCha20Poly1305Engine {
    /// The 32 cipher key bytes.
    pub closed spec fn key_bytes(&self) -> Seq<u8> {
        self.key@
    }

    /// The 12 nonce bytes.
    pub closed spec fn nonce_bytes(&self) -> Seq<u8> {
        self.nonce@
    }

    /// What decrypting the base64 text `input` gives: `EncodingError` where
    /// it is not base64, `CryptoError` where the tag does not verify, else
    /// the plaintext.
    pub open spec fn decrypt_outcome(&self, input: Seq<u8>) -> Result<Seq<u8>, TextError> {
        match b64_decoded(input) {
            None => Err(TextError::EncodingError),
            Some(ct) => match chacha_opened(self.key_bytes(), self.nonce_bytes(), ct) {
                None => Err(TextError::CryptoError),
                Some(p) => Ok(p),
            },
        }
    }

    /// Builds the engine from a cipher key and a nonce.
    pub fn new(key: [u8; 32], nonce: [u8; 12]) -> (r: Self)
        ensures
            r.key_bytes() == key@,
            r.nonce_bytes() == nonce@,
    {
        ChaCha20Poly1305Engine { key, nonce }
    }

    /// Builds the engine from a key file: bytes `[0, 12)` are the nonce and
    /// bytes `[12, 44)` the key; fails with `KeyError` on fewer than 44
    /// bytes. Bytes past the 44th are ignored.
    pub fn try_new(key: &[u8]) -> (r: Result<Self, TextError>)
        ensures
            Self::loads(key@, r),
    {
        if key.len() < 44 {
            Err(TextError::KeyError)
        } else {
            let nonce = array_at::<12>(key, 0);
            let cipher_key = array_at::<32>(key, 12);
            Ok(ChaCha20Poly1305Engine::new(cipher_key, nonce))
        }
    }

    /// Encrypts the message and returns the ciphertext with its tag as
    /// base64 text, which decrypts back to the message. The cipher refuses
    /// a message of `CHACHA_MAX_BLOCKS` 64-byte blocks or more, with
    /// `CryptoError`.
    pub fn encrypt(&self, msg: &[u8]) -> (r: Result<String, TextError>)
        requires
            encodable_len(msg@.len() + 16),
        ensures
            match r {
                Ok(text) => {
                    &&& msg@.len() / 64 < CHACHA_MAX_BLOCKS
                    &&& text@ == b64_encoded(chacha_sealed(self.key_bytes(), self.nonce_bytes(), msg@))
                    &&& b64_decoded(encode_utf8(text@)) == Some(
                        chacha_sealed(self.key_bytes(), self.nonce_bytes(), msg@),
                    )
                    &&& chacha_sealed(self.key_bytes(), self.nonce_bytes(), msg@).len() == msg@.len() + 16
                    &&& self.decrypt_outcome(encode_utf8(text@)) == Ok::<Seq<u8>, TextError>(msg@)
                },
                Err(e) => msg@.len() / 64 >= CHACHA_MAX_BLOCKS && e == TextError::CryptoError,
            },
    {
        match chacha_encrypt(&self.key, &self.nonce, msg) {
            Some(ct) => Ok(encode_url_safe(ct.as_slice())),
            None => Err(TextError::CryptoError),
        }
    }

    /// Decodes the base64 text and decrypts it, checking the tag.
    pub fn decrypt(&self, input: &[u8]) -> (r: Result<Vec<u8>, TextError>)
        ensures
            match r {
                Ok(p) => self.decrypt_outcome(input@) == Ok::<Seq<u8>, TextError>(p@),
                Err(e) => self.decrypt_outcome(input@) == Err::<Seq<u8>, TextError>(e),
            },
    {
        let ct = match decode_url_safe(input) {
            Some(ct) => ct,
            None => return Err(TextError::EncodingError),
        };
        match chacha_decrypt(&self.key, &self.nonce, ct.as_slice()) {
            Some(p) => Ok(p),
            None => Err(TextError::CryptoError),
        }
    }
}

impl KeyLoader for ChaCha20Poly1305Engine {
    open spec fn loads(bytes: Seq<u8>, r: Result<Self, TextError>) -> bool {
        match r {
            Ok(e) => {
                &&& bytes.len() >= 44
                &&& e.nonce_bytes() == bytes.subrange(0, 12)
                &&& e.key_bytes() == bytes.subrange(12, 44)
            },
            Err(e) => bytes.len() < 44 && e == TextError::KeyError,
        }
    }

    fn load(bytes: &[u8]) -> (r: Result<Self, TextError>) {
        Self::try_new(bytes)
    }
}

/// Relies on `String::from_utf8`: it succeeds exactly on valid UTF-8, and
/// the string then holds those bytes.
#[verifier::external_body]
fn utf8_string(b: Vec<u8>) -> (r: Option<String>)
    ensures
        r is Some <==> valid_utf8(b@),
        r matches Some(s) ==> encode_utf8(s@) == b@,
{
    String::from_utf8(b).ok()
}


/// The length of a raw signature: 32 bytes for the keyed hash, 64 for
/// Ed25519.
pub open spec fn signature_len(format: TextSignFormat) -> nat {
    match format {
        TextSignFormat::Blake3 => 32,
        TextSignFormat::Ed25519 => 64,
    }
}

/// The signature that `format` gives for `msg` under the key file `key`.
pub open spec fn signature_for(format: TextSignFormat, key: Seq<u8>, msg: Seq<u8>) -> Seq<u8> {
    match format {
        TextSignFormat::Blake3 => mac_of(key.subrange(0, 32), msg),
        TextSignFormat::Ed25519 => ed25519_signature(key.subrange(0, 32), msg),
    }
}

/// What checking the raw signature `sig` over `msg` gives under the key
/// file `key`.
pub open spec fn check_outcome(format: TextSignFormat, key: Seq<u8>, msg: Seq<u8>, sig: Seq<u8>) -> Result<
    bool,
    TextError,
> {
    if key.len() < 32 {
        Err(TextError::KeyError)
    } else {
        match format {
            TextSignFormat::Blake3 => Ok(mac_of(key.subrange(0, 32), msg) == sig),
            TextSignFormat::Ed25519 => if !ed25519_point(key.subrange(0, 32)) {
                Err(TextError::KeyError)
            } else if sig.len() != 64 {
                Err(TextError::VerificationError)
            } else {
                Ok(ed25519_accepts(key.subrange(0, 32), msg, sig))
            },
        }
    }
}

/// What verifying the base64 signature text `sig` gives: `EncodingError`
/// where it is not base64, then the outcome of the check.
pub open spec fn verify_text_outcome(
    format: TextSignFormat,
    key: Seq<u8>,
    msg: Seq<u8>,
    sig: Seq<u8>,
) -> Result<bool, TextError> {
    match b64_decoded(sig) {
        None => Err(TextError::EncodingError),
        Some(raw) => check_outcome(format, key, msg, raw),
    }
}

/// Signs the message with the key file's contents and returns the
/// signature as base64 text; fails with `KeyError` on a key shorter than
/// 32 bytes. The raw signature is 32 bytes for the keyed hash and 64 for
/// Ed25519, where the key's public point accepts it.
pub fn process_text_sign(input: &[u8], key: &[u8], format: TextSignFormat) -> (r: Result<String, TextError>)
    ensures
        match r {
            Ok(text) => {
                &&& key@.len() >= 32
                &&& text@ == b64_encoded(signature_for(format, key@, input@))
                &&& b64_decoded(encode_utf8(text@)) == Some(signature_for(format, key@, input@))
                &&& signature_for(format, key@, input@).len() == signature_len(format)
                &&& format == TextSignFormat::Ed25519 ==> ed25519_accepts(
                    ed25519_public(key@.subrange(0, 32)),
                    input@,
                    signature_for(format, key@, input@),
                )
            },
            Err(e) => key@.len() < 32 && e == TextError::KeyError,
        },
{
    let signed = match format {
        TextSignFormat::Blake3 => {
            let signer = match Blake3::load(key) {
                Ok(s) => s,
                Err(e) => return Err(e),
            };
            signer.sign(input)
        },
        TextSignFormat::Ed25519 => {
            let signer = match Ed25519Signer::load(key) {
                Ok(s) => s,
                Err(e) => return Err(e),
            };
            signer.sign(input)
        },
    };
    Ok(encode_url_safe(signed.as_slice()))
}

/// Decodes the base64 signature text and checks it over the message with
/// the key file's contents.
pub fn process_text_verify(input: &[u8], key: &[u8], format: TextSignFormat, sig: &str) -> (r: Result<
    bool,
    TextError,
>)
    ensures
        r == verify_text_outcome(format, key@, input@, encode_utf8(sig@)),
{
    let raw = match decode_url_safe(sig.as_bytes()) {
        Some(raw) => raw,
        None => return Err(TextError::EncodingError),
    };
    match format {
        TextSignFormat::Blake3 => {
            let verifier = match Blake3::load(key) {
                Ok(v) => v,
                Err(e) => return Err(e),
            };
            verifier.verify(input, raw.as_slice())
        },
        TextSignFormat::Ed25519 => {
            let verifier = match Ed25519Verifier::load(key) {
                Ok(v) => v,
                Err(e) => return Err(e),
            };
            verifier.verify(input, raw.as_slice())
        },
    }
}

/// Whether `keys` is a possible outcome of generating keys of `format`.
pub open spec fn generated_for(format: TextSignFormat, keys: Seq<Seq<u8>>) -> bool {
    match format {
        TextSignFormat::Blake3 => <Blake3 as KeyGenerator>::generated(keys),
        TextSignFormat::Ed25519 => <Ed25519Signer as KeyGenerator>::generated(keys),
    }
}

/// Generates fresh key files' contents for the format: one key for the
/// keyed hash, a secret then a public key for Ed25519.
pub fn process_generate_key(format: TextSignFormat) -> (r: Vec<Vec<u8>>)
    ensures
        generated_for(format, r@.map_values(|k: Vec<u8>| k@)),
{
    match format {
        TextSignFormat::Blake3 => Blake3::generate(),
        TextSignFormat::Ed25519 => Ed25519Signer::generate(),
    }
}

/// Encrypts the message under the 44-byte key file and returns base64
/// text; fails with `KeyError` on a shorter key file.
pub fn process_text_encrypt(input: &[u8], key: &[u8]) -> (r: Result<String, TextError>)
    requires
        encodable_len(input@.len() + 16),
    ensures
        match r {
            Ok(text) => {
                &&& key@.len() >= 44
                &&& input@.len() / 64 < CHACHA_MAX_BLOCKS
                &&& text@ == b64_encoded(
                    chacha_sealed(key@.subrange(12, 44), key@.subrange(0, 12), input@),
                )
                &&& b64_decoded(encode_utf8(text@)) == Some(
                    chacha_sealed(key@.subrange(12, 44), key@.subrange(0, 12), input@),
                )
                &&& chacha_sealed(key@.subrange(12, 44), key@.subrange(0, 12), input@).len()
                    == input@.len() + 16
                &&& decrypt_bytes_outcome(key@, encode_utf8(text@)) == Ok::<Seq<u8>, TextError>(
                    input@,
                )
            },
            Err(e) => if key@.len() < 44 {
                e == TextError::KeyError
            } else {
                input@.len() / 64 >= CHACHA_MAX_BLOCKS && e == TextError::CryptoError
            },
        },
{
    let engine = match ChaCha20Poly1305Engine::load(key) {
        Ok(e) => e,
        Err(e) => return Err(e),
    };
    engine.encrypt(input)
}

/// What decrypting the base64 text `input` under the key file `key` gives,
/// as bytes.
pub open spec fn decrypt_bytes_outcome(key: Seq<u8>, input: Seq<u8>) -> Result<Seq<u8>, TextError> {
    if key.len() < 44 {
        Err(TextError::KeyError)
    } else {
        match b64_decoded(input) {
            None => Err(TextError::EncodingError),
            Some(ct) => match chacha_opened(key.subrange(12, 44), key.subrange(0, 12), ct) {
                None => Err(TextError::CryptoError),
                Some(p) => Ok(p),
            },
        }
    }
}

/// Decrypts the base64 text under the key file and returns the plaintext
/// as a string; a plaintext that is not UTF-8 fails with `Utf8Error`.
pub fn process_text_decrypt(input: &[u8], key: &[u8]) -> (r: Result<String, TextError>)
    ensures
        match decrypt_bytes_outcome(key@, input@) {
            Ok(p) => if valid_utf8(p) {
                r matches Ok(text) && encode_utf8(text@) == p
            } else {
                r == Err::<String, TextError>(TextError::Utf8Error)
            },
            Err(e) => r == Err::<String, TextError>(e),
        },
{
    let engine = match ChaCha20Poly1305Engine::load(key) {
        Ok(e) => e,
        Err(e) => return Err(e),
    };
    let plain = match engine.decrypt(input) {
        Ok(p) => p,
        Err(e) => return Err(e),
    };
    match utf8_string(plain) {
        Some(text) => Ok(text),
        None => Err(TextError::Utf8Error),
    }
}

} // verus!
