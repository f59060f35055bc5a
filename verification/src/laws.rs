//! What holds of every ciphertext, key and share set, whatever the suite.

use vstd::prelude::*;
use vstd::std_specs::cmp::PartialEqSpec;
use crate::ciphertext::SignCryptCiphertext;
use crate::ciphertext::CiphertextModel;
use crate::decryption_key::SignCryptDecryptionKey;
use crate::keys::{share_points, SignDecryptionShare};
use crate::record::RecordModel;
use crate::scheme::{lemma_dst_for_is_injective, SignatureSchemes};
use crate::suite::{has_repeated, participants, SignCryptSuite};

verus! {

/// What was sealed for a key under a scheme is valid under that scheme, and
/// the holder of the key decrypts it to the message that was sealed.
pub proof fn lemma_sealed_message_is_recovered<C: SignCryptSuite>(
    ciphertext: CiphertextModel<C>,
    message: Seq<u8>,
    sk: C::SecretScalar,
)
    requires
        ciphertext.sealed_from(message, C::spec_public_key(sk)),
    ensures
        ciphertext.is_valid(),
        ciphertext.decrypt(sk) == Some(message),
{
    C::lemma_sealed_opens(ciphertext.u, ciphertext.v, ciphertext.w, message, sk, ciphertext.dst());
}

/// A ciphertext that is not valid yields no value, whichever secret key or
/// decryption point it is opened with.
pub proof fn lemma_invalid_ciphertext_yields_no_value<C: SignCryptSuite>(
    ciphertext: CiphertextModel<C>,
    sk: C::SecretScalar,
    point: C::PublicKey,
)
    requires
        !ciphertext.is_valid(),
    ensures
        ciphertext.decrypt(sk) is None,
        ciphertext.open_at(point) is None,
{
}

/// A payload that is not bound to the point a key derives yields no value
/// for that key, whichever scheme the ciphertext carries.
pub proof fn lemma_unbound_key_yields_no_value<C: SignCryptSuite>(
    ciphertext: CiphertextModel<C>,
    sk: C::SecretScalar,
    scheme: SignatureSchemes,
)
    requires
        C::spec_open(ciphertext.v, C::spec_decryption_point(ciphertext.u, sk)) is None,
    ensures
        ciphertext.with_scheme(scheme).decrypt(sk) is None,
{
}

/// Changing the scheme tag of a ciphertext changes the domain-separation tag
/// it is checked under. Where the triple is consistent under no tag but the
/// one it was sealed under, the retagged ciphertext is not valid and yields
/// no value.
pub proof fn lemma_retagged_ciphertext_is_rejected<C: SignCryptSuite>(
    ciphertext: CiphertextModel<C>,
    other: SignatureSchemes,
    sk: C::SecretScalar,
    point: C::PublicKey,
)
    requires
        other != ciphertext.scheme,
        forall|dst: Seq<u8>| #[trigger]
            C::spec_valid(ciphertext.u, ciphertext.v, ciphertext.w, dst) ==> dst == ciphertext.dst(),
    ensures
        ciphertext.with_scheme(other).dst() != ciphertext.dst(),
        !ciphertext.with_scheme(other).is_valid(),
        ciphertext.with_scheme(other).decrypt(sk) is None,
        ciphertext.with_scheme(other).open_at(point) is None,
{
    lemma_dst_for_is_injective::<C>(other, ciphertext.scheme);
}

/// Threshold equivalence: where a set of shares combines to the point that
/// the holder of `sk` derives for a ciphertext, the key made from the shares
/// decrypts that ciphertext to what `sk` itself decrypts it to.
pub proof fn lemma_threshold_equivalence<C: SignCryptSuite>(
    ciphertext: CiphertextModel<C>,
    sk: C::SecretScalar,
    shares: Seq<SignDecryptionShare<C>>,
)
    requires
        C::spec_combine(share_points(shares)) matches Ok(point) && point == C::spec_decryption_point(
            ciphertext.u,
            sk,
        ),
    ensures
        SignCryptDecryptionKey::<C>::spec_from_shares(shares) is Ok,
        ciphertext.open_at(SignCryptDecryptionKey::<C>::spec_from_shares(shares).unwrap()@)
            == ciphertext.decrypt(sk),
{
}

/// An empty share set, a share set with fewer shares than the threshold and
/// a share set with a repeated participant each give a combination error and
/// no key.
pub proof fn lemma_malformed_share_set_is_rejected<C: SignCryptSuite>(
    shares: Seq<SignDecryptionShare<C>>,
)
    requires
        shares.len() == 0 || shares.len() < C::spec_threshold() || has_repeated(
            participants::<C>(share_points(shares)),
        ),
    ensures
        SignCryptDecryptionKey::<C>::spec_from_shares(shares) is Err,
{
    C::lemma_combine_rejects(share_points(shares));
}

/// Equality is structural: where two points of the suite compare equal
/// exactly when they are the same point, two ciphertexts compare equal
/// exactly when they are the same mathematical value.
pub proof fn lemma_equality_is_structural<C: SignCryptSuite>(a: SignCryptCiphertext<C>, b: SignCryptCiphertext<C>)
    requires
        forall|x: C::PublicKey, y: C::PublicKey| #[trigger] x.eq_spec(&y) <==> x == y,
        forall|x: C::Signature, y: C::Signature| #[trigger] x.eq_spec(&y) <==> x == y,
    ensures
        a.eq_spec(&b) <==> a@ == b@,
{
}

/// Writing a ciphertext out and reading it back gives the same ciphertext,
/// under every scheme.
pub proof fn lemma_record_round_trip<C: SignCryptSuite>(ciphertext: CiphertextModel<C>)
    ensures
        CiphertextModel::<C>::from_record(ciphertext.to_record()) == Some(ciphertext),
{
    C::lemma_public_key_codec(ciphertext.u);
    C::lemma_signature_codec(ciphertext.w);
}

/// A record whose scheme number is out of range is read as no ciphertext.
pub proof fn lemma_unknown_scheme_is_refused<C: SignCryptSuite>(record: RecordModel)
    requires
        record.scheme > 2,
    ensures
        CiphertextModel::<C>::from_record(record) is None,
{
}

/// A key read back from its own encoding is the same key.
pub proof fn lemma_key_round_trip<C: SignCryptSuite>(key: SignCryptDecryptionKey<C>)
    ensures
        SignCryptDecryptionKey::<C>::spec_from_bytes(C::spec_public_key_bytes(key@)) == Some(key),
{
    C::lemma_public_key_codec(key@);
}

} // verus!
