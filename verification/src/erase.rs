//! The one step that verified code cannot take itself: overwriting the memory
//! behind a string. The `zeroize` crate does it; what is assumed of it is
//! stated here and nowhere else.

use vstd::prelude::*;
use zeroize::Zeroize;

verus! {

/// Erases `text` with `zeroize::Zeroize::zeroize`, as implemented for `String`.
///
/// Trusted, not proved: the call leaves the string empty, and it never
/// panics. The crate documents the first as `String::clear`-like truncation
/// to zero length. The second holds because the only checks on its path are
/// that the length of the buffer, counted in bytes, does not overflow and
/// fits in an `isize`, which is so for every `String`. Being ordinary Rust,
/// the call opens no invariant.
///
/// What the crate does beyond that is the reason for calling it, and nothing
/// here can state it: before the truncation it overwrites the whole
/// allocation, contents and spare capacity, with zero bytes, using volatile
/// writes that an optimizer may not remove.
#[verifier::external_body]
pub(crate) fn erase_string(text: &mut String)
    ensures
        final(text)@ == Seq::<char>::empty(),
    opens_invariants none
    no_unwind
{
    text.zeroize();
}

} // verus!
