//! Secret keys and decryption shares.

use vstd::prelude::*;
use crate::suite::SignCryptSuite;

verus! {

/// A recipient's secret scalar.
pub struct SecretKey<C: SignCryptSuite>(pub C::SecretScalar);

/// One participant's partial contribution to a decryption key.
#[derive(Debug)]
pub struct SignDecryptionShare<C: SignCryptSuite>(pub C::PublicKeyShare);

impl<C: SignCryptSuite> Clone for SignDecryptionShare<C> {
    fn clone(&self) -> (r: Self)
        ensures
            r == *self,
    {
        SignDecryptionShare(self.0)
    }
}

impl<C: SignCryptSuite> Copy for SignDecryptionShare<C> {

}

/// The partial points of a sequence of shares, in order.
pub open spec fn share_points<C: SignCryptSuite>(shares: Seq<SignDecryptionShare<C>>) -> Seq<
    C::PublicKeyShare,
> {
    shares.map_values(|share: SignDecryptionShare<C>| share.0)
}

} // verus!
