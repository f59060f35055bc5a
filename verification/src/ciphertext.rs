//! The signcrypt ciphertext.

use vstd::prelude::*;
use vstd::slice::slice_to_vec;
use vstd::std_specs::cmp::{PartialEqSpec, PartialEqSpecImpl};
use subtle::{Choice, CtOption};
use crate::constant_time::{choice_byte, flag, revealed};
use crate::keys::SecretKey;
use crate::record::{CiphertextRecord, RecordModel};
use crate::scheme::{dst_for, spec_dst_for, SignatureSchemes};
use crate::suite::SignCryptSuite;
use crate::text::{ciphertext_text, write_ciphertext};

verus! {

/// The ciphertext output from sign crypt encryption.
#[derive(Debug)]
pub struct SignCryptCiphertext<C: SignCryptSuite> {
    /// The `u` component: the ephemeral encapsulation point.
    pub u: C::PublicKey,
    /// The `v` component: the sealed payload.
    pub v: Vec<u8>,
    /// The `w` component: the binding tag.
    pub w: C::Signature,
    /// The signature scheme used to generate this ciphertext.
    pub scheme: SignatureSchemes,
}

/// A ciphertext as a mathematical value.
#[verifier::ext_equal]
pub struct CiphertextModel<C: SignCryptSuite> {
    pub u: C::PublicKey,
    pub v: Seq<u8>,
    pub w: C::Signature,
    pub scheme: SignatureSchemes,
}

impl<C: SignCryptSuite> CiphertextModel<C> {
    /// The tag of the scheme this ciphertext is bound to.
    pub open spec fn dst(self) -> Seq<u8> {
        spec_dst_for::<C>(self.scheme)
    }

    /// Whether the ciphertext is consistent under the tag of its scheme.
    pub open spec fn is_valid(self) -> bool {
        C::spec_valid(self.u, self.v, self.w, self.dst())
    }

    /// What the ciphertext opens to at `point`: nothing unless it is valid.
    pub open spec fn open_at(self, point: C::PublicKey) -> Option<Seq<u8>> {
        if self.is_valid() {
            C::spec_open(self.v, point)
        } else {
            None
        }
    }

    /// What the holder of `sk` decrypts the ciphertext to.
    pub open spec fn decrypt(self, sk: C::SecretScalar) -> Option<Seq<u8>> {
        self.open_at(C::spec_decryption_point(self.u, sk))
    }

    /// Whether sealing `message` for `recipient` under the scheme of this
    /// ciphertext can have given it.
    pub open spec fn sealed_from(self, message: Seq<u8>, recipient: C::PublicKey) -> bool {
        C::spec_sealed(self.u, self.v, self.w, message, recipient, self.dst())
    }

    /// The same ciphertext under another scheme tag.
    pub open spec fn with_scheme(self, scheme: SignatureSchemes) -> Self {
        CiphertextModel { u: self.u, v: self.v, w: self.w, scheme }
    }

    /// The display form: the four fields by name, between braces.
    pub open spec fn text(self) -> Seq<char> {
        ciphertext_text(C::spec_public_key_text(self.u), self.v, C::spec_signature_text(self.w), self.scheme)
    }

    /// The record this ciphertext is written out as.
    pub open spec fn to_record(self) -> RecordModel {
        RecordModel {
            u: C::spec_public_key_bytes(self.u),
            v: self.v,
            w: C::spec_signature_bytes(self.w),
            scheme: self.scheme.spec_tag(),
        }
    }

    /// The ciphertext made of decoded parts: none where a part is missing.
    pub open spec fn from_parts(
        u: Option<C::PublicKey>,
        v: Seq<u8>,
        w: Option<C::Signature>,
        scheme: Option<SignatureSchemes>,
    ) -> Option<Self> {
        match (u, w, scheme) {
            (Some(u), Some(w), Some(scheme)) => Some(CiphertextModel { u, v, w, scheme }),
            _ => None,
        }
    }

    /// The ciphertext a record holds: none where a point does not decode or
    /// the scheme number stands for no scheme.
    pub open spec fn from_record(record: RecordModel) -> Option<Self> {
        Self::from_parts(
            C::spec_public_key_from_bytes(record.u),
            record.v,
            C::spec_signature_from_bytes(record.w),
            SignatureSchemes::spec_from_tag(record.scheme),
        )
    }
}

impl<C: SignCryptSuite> View for SignCryptCiphertext<C> {
    type V = CiphertextModel<C>;

    open spec fn view(&self) -> CiphertextModel<C> {
        CiphertextModel { u: self.u, v: self.v@, w: self.w, scheme: self.scheme }
    }
}

impl<C: SignCryptSuite> PartialEq for SignCryptCiphertext<C> {
    fn eq(&self, other: &Self) -> (r: bool) {
        let same_payload = self.v == other.v;
        proof {
            if PartialEqSpec::eq_spec(&self.v, &other.v) {
                assert(self.v@ =~= other.v@);
            }
            assert(same_payload == (self.v@ == other.v@));
        }
        self.u == other.u && same_payload && self.w == other.w && self.scheme == other.scheme
    }
}

impl<C: SignCryptSuite> Eq for SignCryptCiphertext<C> {

}

/// Equality is structural: two ciphertexts are equal when their points are,
/// their payloads hold the same bytes and their schemes are the same.
impl<C: SignCryptSuite> PartialEqSpecImpl for SignCryptCiphertext<C> {
    open spec fn obeys_eq_spec() -> bool {
        C::PublicKey::obeys_eq_spec() && C::Signature::obeys_eq_spec()
    }

    open spec fn eq_spec(&self, other: &Self) -> bool {
        &&& self.u.eq_spec(&other.u)
        &&& self.v@ == other.v@
        &&& self.w.eq_spec(&other.w)
        &&& self.scheme == other.scheme
    }
}

impl<C: SignCryptSuite> Clone for SignCryptCiphertext<C> {
    fn clone(&self) -> (r: Self)
        ensures
            r@ == self@,
    {
        SignCryptCiphertext { u: self.u, v: slice_to_vec(self.v.as_slice()), w: self.w, scheme: self.scheme }
    }
}

impl<C: SignCryptSuite> SignCryptCiphertext<C> {
    /// Decrypt the signcrypt ciphertext. There is a plaintext exactly when
    /// the ciphertext is valid and its payload is bound to the point that
    /// `sk` derives.
    pub fn decrypt(&self, sk: &SecretKey<C>) -> (r: CtOption<Vec<u8>>)
        ensures
            revealed(r) == self@.decrypt(sk.0),
            revealed(r) is Some <==> self@.is_valid() && C::spec_open(
                self@.v,
                C::spec_decryption_point(self@.u, sk.0),
            ) is Some,
    {
        let dst = dst_for::<C>(self.scheme);
        C::unseal(self.u, self.v.as_slice(), self.w, &sk.0, dst)
    }

    /// Check if the ciphertext is valid: consistent under the tag of its
    /// scheme. No secret is needed.
    pub fn is_valid(&self) -> (c: Choice)
        ensures
            choice_byte(c) == flag(self@.is_valid()),
    {
        let dst = dst_for::<C>(self.scheme);
        C::valid(self.u, self.v.as_slice(), self.w, dst)
    }

    /// The display form of the ciphertext, for logs.
    pub fn to_string(&self) -> (text: String)
        ensures
            text@ == self@.text(),
    {
        let u = C::public_key_text(&self.u);
        let w = C::signature_text(&self.w);
        write_ciphertext(u.as_str(), self.v.as_slice(), w.as_str(), self.scheme)
    }

    /// Writes the ciphertext out as a record.
    pub fn to_record(&self) -> (record: CiphertextRecord)
        ensures
            record@ == self@.to_record(),
    {
        CiphertextRecord {
            u: C::public_key_to_bytes(&self.u),
            v: slice_to_vec(self.v.as_slice()),
            w: C::signature_to_bytes(&self.w),
            scheme: self.scheme.tag(),
        }
    }

    /// Puts a ciphertext together from decoded parts. A part that is missing
    /// gives nothing.
    pub fn from_parts(
        u: Option<C::PublicKey>,
        v: &[u8],
        w: Option<C::Signature>,
        scheme: Option<SignatureSchemes>,
    ) -> (r: Option<Self>)
        ensures
            r is Some <==> (u is Some && w is Some && scheme is Some),
            match r {
                Some(ciphertext) => CiphertextModel::<C>::from_parts(u, v@, w, scheme) == Some(ciphertext@),
                None => CiphertextModel::<C>::from_parts(u, v@, w, scheme) is None,
            },
    {
        match (u, w, scheme) {
            (Some(u), Some(w), Some(scheme)) => Some(SignCryptCiphertext { u, v: slice_to_vec(v), w, scheme }),
            _ => None,
        }
    }

    /// Reads a ciphertext back from a record. A point that does not decode,
    /// or a scheme number that stands for no scheme, gives nothing.
    pub fn from_record(record: &CiphertextRecord) -> (r: Option<Self>)
        ensures
            match r {
                Some(ciphertext) => CiphertextModel::<C>::from_record(record@) == Some(ciphertext@),
                None => CiphertextModel::<C>::from_record(record@) is None,
            },
    {
        let u = C::public_key_from_bytes(record.u.as_slice());
        let w = C::signature_from_bytes(record.w.as_slice());
        let scheme = SignatureSchemes::from_tag(record.scheme);
        Self::from_parts(u, record.v.as_slice(), w, scheme)
    }
}

} // verus!
