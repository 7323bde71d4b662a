//! Turns a sequence of byte-valued code points into a string.
use crate::table::{char_of, from_codepoint};
use vstd::prelude::*;

verus! {

/// The text that a byte sequence stands for: one character per byte, in order.
pub open spec fn decoded(bytes: Seq<u8>) -> Seq<char> {
    bytes.map_values(|b: u8| char_of(b))
}

/// Relies on std's `String::push`: the character is appended at the end.
#[verifier::external_body]
fn push_char(s: &mut String, c: char)
    ensures
        final(s)@ == old(s)@.push(c),
{
    s.push(c)
}

/// Maps each byte of `memory` to the character of that code point and
/// concatenates the characters, in order, into a new string.
pub fn decode_ascii(memory: &[u8]) -> (r: String)
    ensures
        r@ == decoded(memory@),
        r@.len() == memory@.len(),
        forall|i: int| 0 <= i < memory@.len() ==> #[trigger] r@[i] == char_of(memory@[i]),
        forall|i: int| 0 <= i < memory@.len() ==> #[trigger] r@[i] as u32 == memory@[i] as u32,
{
    let mut s = String::new();
    let mut i: usize = 0;
    while i < memory.len()
        invariant
            i <= memory@.len(),
            s@ == decoded(memory@.subrange(0, i as int)),
        decreases memory@.len() - i,
    {
        push_char(&mut s, from_codepoint(memory[i]));
        proof {
            assert(memory@.subrange(0, i + 1) == memory@.subrange(0, i as int).push(memory@[i as int]));
        }
        i = i + 1;
    }
    proof {
        assert(memory@.subrange(0, memory@.len() as int) == memory@);
    }
    s
}

/// Decoding a concatenation gives the concatenation of the decoded parts.
pub proof fn lemma_decoded_concat(b1: Seq<u8>, b2: Seq<u8>)
    ensures
        decoded(b1 + b2) == decoded(b1) + decoded(b2),
{
    assert(decoded(b1 + b2) =~= decoded(b1) + decoded(b2));
}

/// Decoding nothing gives the empty text.
pub proof fn lemma_decoded_empty()
    ensures
        decoded(Seq::<u8>::empty()) == Seq::<char>::empty(),
{
    assert(decoded(Seq::<u8>::empty()) =~= Seq::<char>::empty());
}

} // verus!
