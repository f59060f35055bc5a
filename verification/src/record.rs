//! The serialized layout of a ciphertext: an ordered record of encoded
//! points, raw payload and scheme number.

use vstd::prelude::*;
use vstd::slice::slice_to_vec;
use vstd::std_specs::cmp::{PartialEqSpec, PartialEqSpecImpl};

verus! {

/// A ciphertext as it is written out.
#[derive(Debug)]
pub struct CiphertextRecord {
    /// The encoding of `u`.
    pub u: Vec<u8>,
    /// The payload `v`, as it is.
    pub v: Vec<u8>,
    /// The encoding of `w`.
    pub w: Vec<u8>,
    /// The number the scheme is recorded as.
    pub scheme: u8,
}

/// A record as a mathematical value.
#[verifier::ext_equal]
pub struct RecordModel {
    pub u: Seq<u8>,
    pub v: Seq<u8>,
    pub w: Seq<u8>,
    pub scheme: u8,
}

impl View for CiphertextRecord {
    type V = RecordModel;

    open spec fn view(&self) -> RecordModel {
        RecordModel { u: self.u@, v: self.v@, w: self.w@, scheme: self.scheme }
    }
}

impl PartialEq for CiphertextRecord {
    fn eq(&self, other: &Self) -> (r: bool) {
        let same_u = self.u == other.u;
        let same_v = self.v == other.v;
        let same_w = self.w == other.w;
        proof {
            if PartialEqSpec::eq_spec(&self.u, &other.u) {
                assert(self.u@ =~= other.u@);
            }
            if PartialEqSpec::eq_spec(&self.v, &other.v) {
                assert(self.v@ =~= other.v@);
            }
            if PartialEqSpec::eq_spec(&self.w, &other.w) {
                assert(self.w@ =~= other.w@);
            }
        }
        same_u && same_v && same_w && self.scheme == other.scheme
    }
}

impl Eq for CiphertextRecord {

}

/// Two records are equal when they hold the same bytes and the same number.
impl PartialEqSpecImpl for CiphertextRecord {
    open spec fn obeys_eq_spec() -> bool {
        true
    }

    open spec fn eq_spec(&self, other: &Self) -> bool {
        self@ == other@
    }
}

impl Clone for CiphertextRecord {
    fn clone(&self) -> (r: Self)
        ensures
            r@ == self@,
    {
        CiphertextRecord {
            u: slice_to_vec(self.u.as_slice()),
            v: slice_to_vec(self.v.as_slice()),
            w: slice_to_vec(self.w.as_slice()),
            scheme: self.scheme,
        }
    }
}

} // verus!
