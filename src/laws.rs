use crate::cli::text::TextSignFormat;
use crate::codec::b64_decoded;
use crate::error::TextError;
use crate::primitives::ed25519_public;
use crate::text::{
    check_outcome, mac_of, signature_for, verify_text_outcome, Blake3, Ed25519Signer,
    Ed25519Verifier, KeyGenerator, TextSign, TextVerify,
};
use vstd::prelude::*;

verus! {

/// `sig` with bit `bit` of byte `i` inverted.
pub open spec fn flip_bit(sig: Seq<u8>, i: int, bit: u8) -> Seq<u8> {
    sig.update(i, sig[i] ^ (1u8 << bit))
}

/// A keyed-hash signature verifies under the key that made it.
pub proof fn law_mac_round_trip(signer: Blake3, msg: Seq<u8>, sig: Seq<u8>)
    requires
        signer.signs(msg, sig),
    ensures
        signer.verify_outcome(msg, sig) == Ok::<bool, TextError>(true),
{
}

/// Through the dispatch layer: the base64 text of a keyed-hash signature
/// verifies with the key file that made it.
pub proof fn law_mac_text_round_trip(key: Seq<u8>, msg: Seq<u8>, text: Seq<u8>)
    requires
        key.len() >= 32,
        b64_decoded(text) == Some(signature_for(TextSignFormat::Blake3, key, msg)),
    ensures
        verify_text_outcome(TextSignFormat::Blake3, key, msg, text) == Ok::<bool, TextError>(true),
{
}

/// An Ed25519 signature made with a generated secret key verifies under the
/// public key generated with it.
pub proof fn law_asymmetric_round_trip(
    signer: Ed25519Signer,
    verifier: Ed25519Verifier,
    msg: Seq<u8>,
    sig: Seq<u8>,
)
    requires
        <Ed25519Signer as KeyGenerator>::generated(seq![signer@, verifier@]),
        signer.signs(msg, sig),
    ensures
        verifier.verify_outcome(msg, sig) == Ok::<bool, TextError>(true),
{
    assert(seq![signer@, verifier@][1] == ed25519_public(seq![signer@, verifier@][0]));
}

/// Through the dispatch layer: an Ed25519 signature made with a generated
/// secret key file verifies with the public key file generated with it.
pub proof fn law_asymmetric_file_round_trip(
    sk: Seq<u8>,
    pk: Seq<u8>,
    msg: Seq<u8>,
    signer: Ed25519Signer,
    sig: Seq<u8>,
)
    requires
        <Ed25519Signer as KeyGenerator>::generated(seq![sk, pk]),
        signer@ == sk,
        signer.signs(msg, sig),
    ensures
        check_outcome(TextSignFormat::Ed25519, pk, msg, sig) == Ok::<bool, TextError>(true),
{
    assert(seq![sk, pk][1] == ed25519_public(seq![sk, pk][0]));
    assert(pk.subrange(0, 32) =~= pk);
}

/// Inverting any single bit of a keyed-hash signature makes verification
/// report `false`.
pub proof fn law_mac_detects_flipped_bit(signer: Blake3, msg: Seq<u8>, i: int, bit: u8)
    requires
        0 <= i < mac_of(signer@, msg).len(),
        bit < 8,
    ensures
        signer.verify_outcome(msg, flip_bit(mac_of(signer@, msg), i, bit)) == Ok::<bool, TextError>(
            false,
        ),
{
    let sig = mac_of(signer@, msg);
    let x = sig[i];
    assert(x ^ (1u8 << bit) != x) by (bit_vector)
        requires
            bit < 8,
    ;
    assert(flip_bit(sig, i, bit)[i] != sig[i]);
}

/// Inverting a bit of a 64-byte Ed25519 signature keeps its length, so
/// verification reports a verdict, never `VerificationError`; a signature
/// of any other length is refused with `VerificationError`.
pub proof fn law_asymmetric_flip_keeps_structure(
    verifier: Ed25519Verifier,
    msg: Seq<u8>,
    sig: Seq<u8>,
    i: int,
    bit: u8,
)
    requires
        sig.len() == 64,
        0 <= i < 64,
        bit < 8,
    ensures
        verifier.verify_outcome(msg, flip_bit(sig, i, bit)) is Ok,
        forall|other: Seq<u8>|
            other.len() != 64 ==> #[trigger] verifier.verify_outcome(msg, other) == Err::<
                bool,
                TextError,
            >(TextError::VerificationError),
{
}

} // verus!
