//! Reinterpreting word buffers as the bytes that a GPU buffer is filled with.

use vstd::prelude::*;

verus! {

/// Relies on `bytemuck::cast_slice::<u32, u8>`: the words' memory seen as
/// bytes, four for each word in the machine's byte order. The cast cannot
/// fail, as `u8` needs no alignment and every size is a whole number of
/// bytes.
#[verifier::external_body]
pub(crate) fn words_as_bytes(words: &Vec<u32>) -> (bytes: Vec<u8>)
    ensures
        bytes@.len() == 4 * words@.len(),
{
    bytemuck::cast_slice::<u32, u8>(words.as_slice()).to_vec()
}

} // verus!
