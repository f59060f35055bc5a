//! Text for a reader: bytes as a bracketed list of decimal numbers.

use vstd::prelude::*;
use vstd::string::StringExecFns;
use crate::scheme::SignatureSchemes;

verus! {

/// The decimal digit `d`.
pub open spec fn digit(d: nat) -> Seq<char>
    recommends
        d < 10,
{
    if d == 0 {
        "0"@
    } else if d == 1 {
        "1"@
    } else if d == 2 {
        "2"@
    } else if d == 3 {
        "3"@
    } else if d == 4 {
        "4"@
    } else if d == 5 {
        "5"@
    } else if d == 6 {
        "6"@
    } else if d == 7 {
        "7"@
    } else if d == 8 {
        "8"@
    } else {
        "9"@
    }
}

/// `n` in decimal, without leading zeros.
pub open spec fn decimal(n: nat) -> Seq<char>
    decreases n,
{
    if n < 10 {
        digit(n)
    } else {
        decimal(n / 10) + digit(n % 10)
    }
}

/// The numbers of `bytes` in decimal, separated by a comma and a space.
pub open spec fn byte_list_items(bytes: Seq<u8>) -> Seq<char>
    decreases bytes.len(),
{
    if bytes.len() == 0 {
        Seq::empty()
    } else if bytes.len() == 1 {
        decimal(bytes[0] as nat)
    } else {
        byte_list_items(bytes.drop_last()) + ", "@ + decimal(bytes.last() as nat)
    }
}

/// `bytes` as a list in square brackets, as in `[104, 105]`.
pub open spec fn byte_list(bytes: Seq<u8>) -> Seq<char> {
    "["@ + byte_list_items(bytes) + "]"@
}

fn digit_text(d: u8) -> (text: &'static str)
    requires
        d < 10,
    ensures
        text@ == digit(d as nat),
{
    if d == 0 {
        "0"
    } else if d == 1 {
        "1"
    } else if d == 2 {
        "2"
    } else if d == 3 {
        "3"
    } else if d == 4 {
        "4"
    } else if d == 5 {
        "5"
    } else if d == 6 {
        "6"
    } else if d == 7 {
        "7"
    } else if d == 8 {
        "8"
    } else {
        "9"
    }
}

/// Appends `b` in decimal.
pub fn push_decimal(out: &mut String, b: u8)
    ensures
        final(out)@ == old(out)@ + decimal(b as nat),
{
    let ghost start = out@;
    if b >= 100 {
        out.append(digit_text(b / 100));
    }
    if b >= 10 {
        out.append(digit_text((b / 10) % 10));
    }
    out.append(digit_text(b % 10));
    proof {
        let n = b as nat;
        if n >= 100 {
            assert((n / 10) / 10 == n / 100);
            assert(decimal(n / 100) == digit(n / 100));
            assert(decimal(n / 10) == decimal(n / 100) + digit((n / 10) % 10));
            assert(decimal(n) == decimal(n / 10) + digit(n % 10));
            assert(out@ =~= start + (digit(n / 100) + digit((n / 10) % 10) + digit(n % 10)));
        } else if n >= 10 {
            assert((n / 10) % 10 == n / 10);
            assert(decimal(n / 10) == digit(n / 10));
            assert(decimal(n) == decimal(n / 10) + digit(n % 10));
            assert(out@ =~= start + (digit(n / 10) + digit(n % 10)));
        } else {
            assert(decimal(n) == digit(n));
        }
    }
}

/// Appends `bytes` as a bracketed list.
pub fn push_byte_list(out: &mut String, bytes: &[u8])
    ensures
        final(out)@ == old(out)@ + byte_list(bytes@),
{
    let ghost start = out@;
    out.append("[");
    let mut i: usize = 0;
    while i < bytes.len()
        invariant
            i <= bytes.len(),
            out@ == start + "["@ + byte_list_items(bytes@.take(i as int)),
        decreases bytes.len() - i,
    {
        if i > 0 {
            out.append(", ");
        }
        push_decimal(out, bytes[i]);
        proof {
            let head = bytes@.take(i as int);
            let next = bytes@.take(i + 1);
            assert(next.drop_last() =~= head);
            assert(next.last() == bytes@[i as int]);
            if i > 0 {
                assert(out@ =~= start + "["@ + (byte_list_items(head) + ", "@ + decimal(bytes@[i as int] as nat)));
            } else {
                assert(byte_list_items(head) =~= Seq::<char>::empty());
                assert(out@ =~= start + "["@ + decimal(bytes@[i as int] as nat));
            }
        }
        i += 1;
    }
    assert(bytes@.take(i as int) =~= bytes@);
    out.append("]");
    assert(out@ =~= start + byte_list(bytes@));
}

/// The display form of a ciphertext whose points are written as `u` and
/// `w`: the four fields by name, between braces, the payload as a list.
pub open spec fn ciphertext_text(u: Seq<char>, v: Seq<u8>, w: Seq<char>, scheme: SignatureSchemes) -> Seq<
    char,
> {
    "{ u: "@ + u + ", v: "@ + byte_list(v) + ", w: "@ + w + ", scheme: "@ + scheme.spec_name() + " }"@
}

/// Writes the display form of a ciphertext from the text of its two points,
/// its payload and its scheme.
pub fn write_ciphertext(u: &str, v: &[u8], w: &str, scheme: SignatureSchemes) -> (text: String)
    ensures
        text@ == ciphertext_text(u@, v@, w@, scheme),
{
    let mut text = String::from_str("{ u: ");
    text.append(u);
    text.append(", v: ");
    push_byte_list(&mut text, v);
    text.append(", w: ");
    text.append(w);
    text.append(", scheme: ");
    text.append(scheme.name());
    text.append(" }");
    text
}

} // verus!
