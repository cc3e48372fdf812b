//! The container itself.

use crate::erase::erase_string;
use crate::model::{CellState, Phase};
use vstd::prelude::*;

verus! {

/// A secure string container that zeroizes its memory when cleared and when
/// dropped.
///
/// It holds one secret, set at construction and never replaced. Reads hand
/// out copies; the caller owns those and the container cannot erase them.
pub struct ZeroizedString {
    inner: String,
    phase: Ghost<Phase>,
}

impl View for ZeroizedString {
    type V = CellState;

    closed spec fn view(&self) -> CellState {
        CellState { contents: self.inner@, phase: self.phase@ }
    }
}

impl ZeroizedString {
    #[verifier::type_invariant]
    spec fn valid(&self) -> bool {
        self@.inv()
    }

    /// Creates a container that holds `data`, character for character.
    pub fn new(data: &str) -> (cell: ZeroizedString)
        ensures
            cell@ == CellState::create(data@),
    {
        ZeroizedString { inner: data.to_string(), phase: Ghost(Phase::Populated) }
    }

    /// Returns a copy of the current contents: the text the container was
    /// built with, or the empty string once it has been cleared. The
    /// container is left as it was.
    pub fn get_value(&self) -> (value: String)
        ensures
            value@ == self@.read(),
            self@.inv(),
    {
        proof {
            use_type_invariant(self);
        }
        self.inner.clone()
    }

    /// Overwrites the contents with zeros and leaves the container empty.
    /// Clearing an empty container is allowed and changes nothing more.
    pub fn zeroize(&mut self)
        ensures
            final(self)@ == old(self)@.clear(),
        opens_invariants none
        no_unwind
    {
        erase_string(&mut self.inner);
        self.phase = Ghost(Phase::Cleared);
    }
}

impl Drop for ZeroizedString {
    /// Clears the container one last time before its storage is freed, in
    /// the same way as an explicit [`ZeroizedString::zeroize`].
    fn drop(&mut self)
        ensures
            final(self)@ == old(self)@.clear(),
        opens_invariants none
        no_unwind
    {
        self.zeroize();
    }
}

} // verus!
