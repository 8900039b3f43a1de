//! A growable byte buffer with independent read and write cursors, used to
//! stage the bytes of a socket stream, with big-endian codecs for the
//! fixed-width integers of network protocols.

pub mod buffer;
pub mod codec;
pub mod common;
pub mod stream;

pub use buffer::Buffer;

use vstd::prelude::*;

verus! {

/// Mints the next connection identifier from the counter `last`, which
/// holds the identifier minted before (0 before the first).
pub fn next_token(last: &mut usize) -> (r: usize)
    requires
        *old(last) < usize::MAX,
    ensures
        *final(last) == *old(last) + 1,
        r == *final(last),
{
    *last = *last + 1;
    *last
}

} // verus!
