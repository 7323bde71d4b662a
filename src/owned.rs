//! Decoding of a byte buffer that the caller hands over.
use crate::decoder;
use crate::table::char_of;
use vstd::prelude::*;

verus! {

/// Like `decoder::decode_ascii`, but takes the buffer by value.
pub fn decode_ascii(memory: Vec<u8>) -> (r: String)
    ensures
        r@ == decoder::decoded(memory@),
        r@.len() == memory@.len(),
        forall|i: int| 0 <= i < memory@.len() ==> #[trigger] r@[i] == char_of(memory@[i]),
{
    decoder::decode_ascii(memory.as_slice())
}

} // verus!
