//! The mapping from a single-byte code point to its character.
use vstd::prelude::*;

verus! {

/// The character whose code point is the byte's value.
pub open spec fn char_of(cp: u8) -> char {
    cp as char
}

/// Returns the character whose code point equals `cp`.
pub fn from_codepoint(cp: u8) -> (c: char)
    ensures
        c == char_of(cp),
        c as u32 == cp as u32,
{
    cp as char
}

} // verus!
