//! The diagnostic trace: an append-only text that every phase writes to.

use vstd::prelude::*;
use crate::text::{push_decimal, push_hex_byte, decimal, hex_byte};

verus! {

/// Human-readable, append-only report of a diagnosis. Text can only be added
/// at the end; nothing written before is ever changed.
pub struct Trace {
    text: String,
}

impl View for Trace {
    type V = Seq<char>;

    closed spec fn view(&self) -> Seq<char> {
        self.text@
    }
}

impl Trace {
    /// An empty trace.
    pub fn new() -> (r: Trace)
        ensures
            r@ == Seq::<char>::empty(),
    {
        Trace { text: String::new() }
    }

    /// Appends `s`.
    pub fn push(&mut self, s: &str)
        ensures
            final(self)@ == old(self)@ + s@,
    {
        self.text.append(s);
    }

    /// Appends the decimal rendering of `n`.
    pub fn push_number(&mut self, n: u64)
        ensures
            final(self)@ == old(self)@ + decimal(n as nat),
    {
        push_decimal(&mut self.text, n);
    }

    /// The text written so far.
    pub fn as_str(&self) -> (r: &str)
        ensures
            r@ == self@,
    {
        self.text.as_str()
    }

    /// The text written so far, as an owned string.
    pub fn to_text(&self) -> (r: String)
        ensures
            r@ == self@,
    {
        self.text.clone()
    }
}

/// The bytes of `b` as two-digit hexadecimal items separated by `", "`.
pub open spec fn hex_items(b: Seq<u8>) -> Seq<char>
    decreases b.len(),
{
    if b.len() == 0 {
        Seq::empty()
    } else if b.len() == 1 {
        hex_byte(b[0])
    } else {
        hex_items(b.drop_last()) + ", "@ + hex_byte(b.last())
    }
}

/// A bracketed list of two-digit hexadecimal bytes, as in `[16, 03, 01]`.
pub open spec fn hex_list(b: Seq<u8>) -> Seq<char> {
    "["@ + hex_items(b) + "]"@
}

/// Renders `b` as a bracketed list of two-digit hexadecimal bytes.
pub fn hex_preview(b: &[u8]) -> (r: String)
    ensures
        r@ == hex_list(b@),
{
    let mut s = String::new();
    s.append("[");
    let mut i: usize = 0;
    while i < b.len()
        invariant
            i <= b@.len(),
            s@ == "["@ + hex_items(b@.subrange(0, i as int)),
        decreases b@.len() - i,
    {
        let ghost before = s@;
        if i > 0 {
            s.append(", ");
        }
        push_hex_byte(&mut s, b[i]);
        proof {
            let p = b@.subrange(0, i + 1);
            assert(p.drop_last() =~= b@.subrange(0, i as int));
            assert(p.last() == b@[i as int]);
            if i == 0 {
                assert(hex_items(b@.subrange(0, 0)) =~= Seq::<char>::empty());
            }
        }
        i = i + 1;
    }
    s.append("]");
    assert(b@.subrange(0, b@.len() as int) =~= b@);
    s
}

} // verus!
