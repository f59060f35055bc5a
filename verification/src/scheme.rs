//! The signature schemes a ciphertext can be bound to, and the registry
//! that maps each to its domain-separation tag.

use vstd::prelude::*;
use crate::suite::SignCryptSuite;

verus! {

/// The BLS signature variants.
#[derive(Clone, Copy, Debug, PartialEq, Eq, Hash, Structural)]
pub enum SignatureSchemes {
    /// The basic scheme: messages are signed as they are.
    Basic,
    /// Message augmentation: the public key is prepended to the message.
    MessageAugmentation,
    /// Proof of possession: keys come with a proof of their secret.
    ProofOfPossession,
}

impl SignatureSchemes {
    /// The name of the variant.
    pub open spec fn spec_name(self) -> Seq<char> {
        match self {
            SignatureSchemes::Basic => "Basic"@,
            SignatureSchemes::MessageAugmentation => "MessageAugmentation"@,
            SignatureSchemes::ProofOfPossession => "ProofOfPossession"@,
        }
    }

    /// The number a variant is recorded as.
    pub open spec fn spec_tag(self) -> u8 {
        match self {
            SignatureSchemes::Basic => 0,
            SignatureSchemes::MessageAugmentation => 1,
            SignatureSchemes::ProofOfPossession => 2,
        }
    }

    /// The variant recorded as `tag`, if there is one.
    pub open spec fn spec_from_tag(tag: u8) -> Option<SignatureSchemes> {
        if tag == 0 {
            Some(SignatureSchemes::Basic)
        } else if tag == 1 {
            Some(SignatureSchemes::MessageAugmentation)
        } else if tag == 2 {
            Some(SignatureSchemes::ProofOfPossession)
        } else {
            None
        }
    }

    /// The name of the variant, as it is shown to a reader.
    pub fn name(self) -> (name: &'static str)
        ensures
            name@ == self.spec_name(),
    {
        match self {
            SignatureSchemes::Basic => "Basic",
            SignatureSchemes::MessageAugmentation => "MessageAugmentation",
            SignatureSchemes::ProofOfPossession => "ProofOfPossession",
        }
    }

    /// The number this variant is recorded as.
    pub fn tag(self) -> (tag: u8)
        ensures
            tag == self.spec_tag(),
            SignatureSchemes::spec_from_tag(tag) == Some(self),
    {
        match self {
            SignatureSchemes::Basic => 0,
            SignatureSchemes::MessageAugmentation => 1,
            SignatureSchemes::ProofOfPossession => 2,
        }
    }

    /// Reads a recorded number back. A number that no variant is recorded
    /// as is refused: no scheme is guessed.
    pub fn from_tag(tag: u8) -> (scheme: Option<SignatureSchemes>)
        ensures
            scheme == SignatureSchemes::spec_from_tag(tag),
            scheme is Some <==> tag <= 2,
    {
        if tag == 0 {
            Some(SignatureSchemes::Basic)
        } else if tag == 1 {
            Some(SignatureSchemes::MessageAugmentation)
        } else if tag == 2 {
            Some(SignatureSchemes::ProofOfPossession)
        } else {
            None
        }
    }
}

/// The domain-separation tag registered for `scheme` in suite `C`.
pub open spec fn spec_dst_for<C: SignCryptSuite>(scheme: SignatureSchemes) -> Seq<u8> {
    match scheme {
        SignatureSchemes::Basic => C::spec_basic_dst(),
        SignatureSchemes::MessageAugmentation => C::spec_message_augmentation_dst(),
        SignatureSchemes::ProofOfPossession => C::spec_proof_of_possession_dst(),
    }
}

/// Resolves the domain-separation tag of `scheme`. Every variant has its own
/// entry; there is no default.
pub fn dst_for<C: SignCryptSuite>(scheme: SignatureSchemes) -> (dst: &'static [u8])
    ensures
        dst@ == spec_dst_for::<C>(scheme),
{
    match scheme {
        SignatureSchemes::Basic => C::basic_dst(),
        SignatureSchemes::MessageAugmentation => C::message_augmentation_dst(),
        SignatureSchemes::ProofOfPossession => C::proof_of_possession_dst(),
    }
}

/// Two different schemes never share a tag.
pub proof fn lemma_dst_for_is_injective<C: SignCryptSuite>(a: SignatureSchemes, b: SignatureSchemes)
    requires
        a != b,
    ensures
        spec_dst_for::<C>(a) != spec_dst_for::<C>(b),
{
    C::lemma_dsts_are_distinct();
}

} // verus!
