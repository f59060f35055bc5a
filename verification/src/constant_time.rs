//! Constant-time values of the `subtle` crate, as far as the contracts of
//! this library speak of them, and the two ways out of the constant-time
//! domain.

use vstd::prelude::*;
use subtle::{Choice, CtOption};

verus! {

/// `subtle::Choice`, a truth value that is not to be branched on. Nothing
/// inside it is visible here.
#[verifier::external_type_specification]
#[verifier::external_body]
pub struct ExChoice(subtle::Choice);

/// `subtle::CtOption`, an optional value whose presence is a `Choice`.
/// Nothing inside it is visible here.
#[verifier::external_type_specification]
#[verifier::external_body]
#[verifier::reject_recursive_types(T)]
pub struct ExCtOption<T>(subtle::CtOption<T>);

/// The byte that a `Choice` wraps: `1` for true, `0` for false.
pub uninterp spec fn choice_byte(c: Choice) -> u8;

/// What a constant-time optional byte string holds: the bytes when it is
/// some, nothing when it is none.
pub uninterp spec fn revealed(o: CtOption<Vec<u8>>) -> Option<Seq<u8>>;

/// The byte that stands for a truth value in a `Choice`.
pub open spec fn flag(b: bool) -> u8 {
    if b {
        1u8
    } else {
        0u8
    }
}

/// `Choice::unwrap_u8` hands out the wrapped byte unchanged.
pub assume_specification[ Choice::unwrap_u8 ](c: &Choice) -> (b: u8)
    ensures
        b == choice_byte(*c),
;

/// `CtOption::into_option` gives `Some` of the stored value exactly when the
/// stored flag is the byte `1`, and `None` otherwise; `revealed` names that
/// result by its bytes.
#[verifier::external_body]
fn into_option(o: CtOption<Vec<u8>>) -> (r: Option<Vec<u8>>)
    ensures
        r.is_some() == revealed(o).is_some(),
        r.is_some() ==> r.unwrap()@ == revealed(o).unwrap(),
{
    o.into_option()
}

/// Whether a `Choice` is set. This leaves the constant-time domain: call it
/// only where the answer may be branched on.
pub fn is_set(c: Choice) -> (b: bool)
    ensures
        b == (choice_byte(c) == 1),
{
    c.unwrap_u8() == 1
}

/// The plaintext of a decryption outcome, if there is one. This leaves the
/// constant-time domain: call it only once the outcome may be branched on.
pub fn plaintext(outcome: CtOption<Vec<u8>>) -> (r: Option<Vec<u8>>)
    ensures
        r.is_some() == revealed(outcome).is_some(),
        r.is_some() ==> r.unwrap()@ == revealed(outcome).unwrap(),
{
    into_option(outcome)
}

} // verus!
