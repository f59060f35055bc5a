//! The signcrypt decryption key.

use vstd::prelude::*;
use vstd::std_specs::cmp::{PartialEqSpec, PartialEqSpecImpl};
use subtle::CtOption;
use crate::ciphertext::SignCryptCiphertext;
use crate::constant_time::revealed;
use crate::keys::{share_points, SignDecryptionShare};
use crate::suite::{has_repeated, participants, CombinationError, SignCryptSuite};

verus! {

/// A signcrypt decryption key where the secret key is hidden or combined
/// from shares that can decrypt ciphertext.
#[derive(Debug)]
pub struct SignCryptDecryptionKey<C: SignCryptSuite>(pub C::PublicKey);

impl<C: SignCryptSuite> View for SignCryptDecryptionKey<C> {
    type V = C::PublicKey;

    open spec fn view(&self) -> C::PublicKey {
        self.0
    }
}

impl<C: SignCryptSuite> PartialEq for SignCryptDecryptionKey<C> {
    fn eq(&self, other: &Self) -> (r: bool) {
        self.0 == other.0
    }
}

impl<C: SignCryptSuite> Eq for SignCryptDecryptionKey<C> {

}

/// Two keys are equal when their points are.
impl<C: SignCryptSuite> PartialEqSpecImpl for SignCryptDecryptionKey<C> {
    open spec fn obeys_eq_spec() -> bool {
        C::PublicKey::obeys_eq_spec()
    }

    open spec fn eq_spec(&self, other: &Self) -> bool {
        self.0.eq_spec(&other.0)
    }
}

impl<C: SignCryptSuite> Clone for SignCryptDecryptionKey<C> {
    fn clone(&self) -> (r: Self)
        ensures
            r == *self,
    {
        SignCryptDecryptionKey(self.0)
    }
}

impl<C: SignCryptSuite> SignCryptDecryptionKey<C> {
    /// The key that `bytes` encode: the point they decode to, if any.
    pub open spec fn spec_from_bytes(bytes: Seq<u8>) -> Option<Self> {
        match C::spec_public_key_from_bytes(bytes) {
            Some(point) => Some(SignCryptDecryptionKey(point)),
            None => None,
        }
    }

    /// The key that a combination of partial points gives: the combined
    /// point, or the reason there is none.
    pub open spec fn spec_from_combined(combined: Result<C::PublicKey, CombinationError>) -> Result<
        Self,
        CombinationError,
    > {
        match combined {
            Ok(point) => Ok(SignCryptDecryptionKey(point)),
            Err(e) => Err(e),
        }
    }

    /// The key that a set of shares gives.
    pub open spec fn spec_from_shares(shares: Seq<SignDecryptionShare<C>>) -> Result<Self, CombinationError> {
        Self::spec_from_combined(C::spec_combine(share_points(shares)))
    }

    /// Decrypt signcrypt ciphertext. There is a plaintext exactly when the
    /// ciphertext is valid and its payload is bound to the point of this key.
    pub fn decrypt(&self, ciphertext: &SignCryptCiphertext<C>) -> (r: CtOption<Vec<u8>>)
        ensures
            revealed(r) == ciphertext@.open_at(self@),
            revealed(r) is Some <==> ciphertext@.is_valid() && C::spec_open(ciphertext@.v, self@) is Some,
    {
        let choice = ciphertext.is_valid();
        C::decrypt(ciphertext.v.as_slice(), self.0, choice)
    }

    /// Writes the key out: the encoding of its point.
    pub fn to_bytes(&self) -> (bytes: Vec<u8>)
        ensures
            bytes@ == C::spec_public_key_bytes(self@),
    {
        C::public_key_to_bytes(&self.0)
    }

    /// Reads a key back: the point that `bytes` encode, if they encode one.
    pub fn from_bytes(bytes: &[u8]) -> (r: Option<Self>)
        ensures
            r == Self::spec_from_bytes(bytes@),
    {
        match C::public_key_from_bytes(bytes) {
            Some(point) => Some(SignCryptDecryptionKey(point)),
            None => None,
        }
    }

    /// Wraps the outcome of a combination: the point becomes a key, an error
    /// stays as it is.
    pub fn from_combined(combined: Result<C::PublicKey, CombinationError>) -> (r: Result<Self, CombinationError>)
        ensures
            r == Self::spec_from_combined(combined),
    {
        match combined {
            Ok(point) => Ok(SignCryptDecryptionKey(point)),
            Err(e) => Err(e),
        }
    }

    /// Combine decryption shares into a signcrypt decryption key. The
    /// partial points are handed to the suite in the order of the shares;
    /// what it combines them to becomes the key, and a set it refuses gives
    /// its error and no key.
    pub fn from_shares(shares: &[SignDecryptionShare<C>]) -> (r: Result<Self, CombinationError>)
        ensures
            r == Self::spec_from_shares(shares@),
            shares@.len() == 0 ==> r is Err,
            shares@.len() < C::spec_threshold() ==> r is Err,
            has_repeated(participants::<C>(share_points(shares@))) ==> r is Err,
    {
        let mut points: Vec<C::PublicKeyShare> = Vec::new();
        let mut i: usize = 0;
        while i < shares.len()
            invariant
                i <= shares.len(),
                points@.len() == i,
                forall|k: int| 0 <= k < i ==> points@[k] == shares@[k].0,
            decreases shares.len() - i,
        {
            points.push(shares[i].0);
            i += 1;
        }
        assert(points@ =~= share_points(shares@));
        proof {
            if points@.len() == 0 || points@.len() < C::spec_threshold() || has_repeated(
                participants::<C>(points@),
            ) {
                C::lemma_combine_rejects(points@);
            }
        }
        let combined = C::combine_public_key_shares(points.as_slice());
        Self::from_combined(combined)
    }
}

} // verus!
