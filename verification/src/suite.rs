//! The pairing suite: the curve-level primitives this library is generic
//! over, each with the mathematical function it computes.

use vstd::prelude::*;
use subtle::{Choice, CtOption};
use crate::constant_time::{choice_byte, flag, revealed};

verus! {

/// Why a set of shares could not be combined.
#[derive(Clone, Copy, Debug, PartialEq, Eq, Structural)]
pub enum CombinationError {
    /// Fewer shares than the threshold.
    TooFewShares,
    /// Two shares of one participant.
    DuplicateIndex,
    /// A share that is no point of the group, or has no participant.
    MalformedShare,
}

/// True when two positions of `indices` hold the same participant.
pub open spec fn has_repeated(indices: Seq<nat>) -> bool {
    exists|i: int, j: int| 0 <= i < j < indices.len() && #[trigger] indices[i] == #[trigger] indices[j]
}

/// The participants of a sequence of partial points, in order.
pub open spec fn participants<C: SignCryptSuite>(points: Seq<C::PublicKeyShare>) -> Seq<nat> {
    points.map_values(|p: C::PublicKeyShare| C::spec_participant(p))
}

/// A pairing suite with the signcryption primitives built on it.
///
/// Each executable primitive is a function of its arguments alone, named by
/// the `spec` function beside it. An implementation proves the few laws the
/// library relies on. It also runs `valid`, `decrypt` and `unseal` in
/// constant time; no contract can say so.
pub trait SignCryptSuite: Sized {
    /// Points of the group that holds public keys: `u` and decryption points.
    type PublicKey: Copy + Eq;

    /// Points of the group that holds signatures: `w`.
    type Signature: Copy + Eq;

    /// Secret scalars.
    type SecretScalar;

    /// One participant's partial point, with the participant's index.
    type PublicKeyShare: Copy;

    /// The tag of the basic scheme.
    spec fn spec_basic_dst() -> Seq<u8>;

    /// The tag of the message-augmentation scheme.
    spec fn spec_message_augmentation_dst() -> Seq<u8>;

    /// The signature tag of the proof-of-possession scheme.
    spec fn spec_proof_of_possession_dst() -> Seq<u8>;

    /// The three schemes are separated: no two share a tag.
    proof fn lemma_dsts_are_distinct()
        ensures
            Self::spec_basic_dst() != Self::spec_message_augmentation_dst(),
            Self::spec_basic_dst() != Self::spec_proof_of_possession_dst(),
            Self::spec_message_augmentation_dst() != Self::spec_proof_of_possession_dst(),
    ;

    /// The tag of the basic scheme, as bytes to hash with.
    fn basic_dst() -> (dst: &'static [u8])
        ensures
            dst@ == Self::spec_basic_dst(),
    ;

    /// The tag of the message-augmentation scheme, as bytes to hash with.
    fn message_augmentation_dst() -> (dst: &'static [u8])
        ensures
            dst@ == Self::spec_message_augmentation_dst(),
    ;

    /// The signature tag of the proof-of-possession scheme, as bytes to hash
    /// with.
    fn proof_of_possession_dst() -> (dst: &'static [u8])
        ensures
            dst@ == Self::spec_proof_of_possession_dst(),
    ;

    /// Whether `(u, v, w)` is algebraically consistent under `dst`.
    spec fn spec_valid(u: Self::PublicKey, v: Seq<u8>, w: Self::Signature, dst: Seq<u8>) -> bool;

    /// The point a holder of `sk` derives from `u` to open a ciphertext.
    spec fn spec_decryption_point(u: Self::PublicKey, sk: Self::SecretScalar) -> Self::PublicKey;

    /// What `v` opens to at `point`: the plaintext, or nothing where `v` is
    /// not bound to that point.
    spec fn spec_open(v: Seq<u8>, point: Self::PublicKey) -> Option<Seq<u8>>;

    /// The public key that belongs to `sk`.
    spec fn spec_public_key(sk: Self::SecretScalar) -> Self::PublicKey;

    /// Whether sealing `message` for `recipient` under `dst` can give
    /// `(u, v, w)`.
    spec fn spec_sealed(
        u: Self::PublicKey,
        v: Seq<u8>,
        w: Self::Signature,
        message: Seq<u8>,
        recipient: Self::PublicKey,
        dst: Seq<u8>,
    ) -> bool;

    /// What was sealed for a key is consistent under the tag it was sealed
    /// under, and opens to the message at the point the key's holder derives.
    proof fn lemma_sealed_opens(
        u: Self::PublicKey,
        v: Seq<u8>,
        w: Self::Signature,
        message: Seq<u8>,
        sk: Self::SecretScalar,
        dst: Seq<u8>,
    )
        requires
            Self::spec_sealed(u, v, w, message, Self::spec_public_key(sk), dst),
        ensures
            Self::spec_valid(u, v, w, dst),
            Self::spec_open(v, Self::spec_decryption_point(u, sk)) == Some(message),
    ;

    /// The validity check, in constant time.
    fn valid(u: Self::PublicKey, v: &[u8], w: Self::Signature, dst: &[u8]) -> (c: Choice)
        ensures
            choice_byte(c) == flag(Self::spec_valid(u, v@, w, dst@)),
    ;

    /// Opens `v` at `point`, and yields no value where `valid` is false.
    fn decrypt(v: &[u8], point: Self::PublicKey, valid: Choice) -> (r: CtOption<Vec<u8>>)
        requires
            choice_byte(valid) <= 1,
        ensures
            revealed(r) == (if choice_byte(valid) == 1 {
                Self::spec_open(v@, point)
            } else {
                None
            }),
    ;

    /// Checks `(u, v, w)` under `dst` and opens `v` at the point that `sk`
    /// derives from `u`.
    fn unseal(u: Self::PublicKey, v: &[u8], w: Self::Signature, sk: &Self::SecretScalar, dst: &[u8]) -> (r:
        CtOption<Vec<u8>>)
        ensures
            revealed(r) == (if Self::spec_valid(u, v@, w, dst@) {
                Self::spec_open(v@, Self::spec_decryption_point(u, *sk))
            } else {
                None
            }),
    ;

    /// The participant a share belongs to.
    spec fn spec_participant(share: Self::PublicKeyShare) -> nat;

    /// How many shares a combination needs.
    spec fn spec_threshold() -> nat;

    /// The point that `shares` interpolate to, or why they do not.
    spec fn spec_combine(shares: Seq<Self::PublicKeyShare>) -> Result<Self::PublicKey, CombinationError>;

    /// An empty set, a set with a repeated participant and a set below the
    /// threshold are never combined.
    proof fn lemma_combine_rejects(shares: Seq<Self::PublicKeyShare>)
        requires
            shares.len() == 0 || shares.len() < Self::spec_threshold() || has_repeated(
                shares.map_values(|p: Self::PublicKeyShare| Self::spec_participant(p)),
            ),
        ensures
            Self::spec_combine(shares) is Err,
    ;

    /// Combines partial points into one.
    fn combine_public_key_shares(shares: &[Self::PublicKeyShare]) -> (r: Result<
        Self::PublicKey,
        CombinationError,
    >)
        ensures
            r == Self::spec_combine(shares@),
    ;

    /// The encoding of a point of the public-key group.
    spec fn spec_public_key_bytes(point: Self::PublicKey) -> Seq<u8>;

    /// The point that `bytes` encode, if they encode one.
    spec fn spec_public_key_from_bytes(bytes: Seq<u8>) -> Option<Self::PublicKey>;

    /// Every point of the public-key group decodes from its own encoding.
    proof fn lemma_public_key_codec(point: Self::PublicKey)
        ensures
            Self::spec_public_key_from_bytes(Self::spec_public_key_bytes(point)) == Some(point),
    ;

    /// Encodes a point of the public-key group.
    fn public_key_to_bytes(point: &Self::PublicKey) -> (bytes: Vec<u8>)
        ensures
            bytes@ == Self::spec_public_key_bytes(*point),
    ;

    /// Decodes a point of the public-key group.
    fn public_key_from_bytes(bytes: &[u8]) -> (point: Option<Self::PublicKey>)
        ensures
            point == Self::spec_public_key_from_bytes(bytes@),
    ;

    /// The encoding of a point of the signature group.
    spec fn spec_signature_bytes(point: Self::Signature) -> Seq<u8>;

    /// The point that `bytes` encode, if they encode one.
    spec fn spec_signature_from_bytes(bytes: Seq<u8>) -> Option<Self::Signature>;

    /// Every point of the signature group decodes from its own encoding.
    proof fn lemma_signature_codec(point: Self::Signature)
        ensures
            Self::spec_signature_from_bytes(Self::spec_signature_bytes(point)) == Some(point),
    ;

    /// Encodes a point of the signature group.
    fn signature_to_bytes(point: &Self::Signature) -> (bytes: Vec<u8>)
        ensures
            bytes@ == Self::spec_signature_bytes(*point),
    ;

    /// Decodes a point of the signature group.
    fn signature_from_bytes(bytes: &[u8]) -> (point: Option<Self::Signature>)
        ensures
            point == Self::spec_signature_from_bytes(bytes@),
    ;

    /// How a point of the public-key group is written for a reader.
    spec fn spec_public_key_text(point: Self::PublicKey) -> Seq<char>;

    /// Writes a point of the public-key group for a reader.
    fn public_key_text(point: &Self::PublicKey) -> (text: String)
        ensures
            text@ == Self::spec_public_key_text(*point),
    ;

    /// How a point of the signature group is written for a reader.
    spec fn spec_signature_text(point: Self::Signature) -> Seq<char>;

    /// Writes a point of the signature group for a reader.
    fn signature_text(point: &Self::Signature) -> (text: String)
        ensures
            text@ == Self::spec_signature_text(*point),
    ;
}

} // verus!
