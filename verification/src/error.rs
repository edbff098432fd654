//! The errors of a read.

use vstd::prelude::*;

verus! {

/// Why a read of a preloader gave no value.
#[derive(Clone, Copy, Debug, PartialEq, Eq, Structural)]
pub enum PreloaderError {
    /// No load has been started, so there is nothing to wait for.
    NotLoaded,
    /// A load has been started and its value is not there: the load is still
    /// running, another reader holds the slot, or the load ended without a value.
    Loading,
}

impl PreloaderError {
    /// The text of [`PreloaderError::message`].
    pub open spec fn spec_message(self) -> Seq<char> {
        match self {
            PreloaderError::NotLoaded => "Preloader is not loaded"@,
            PreloaderError::Loading => "Preloader is loading"@,
        }
    }

    /// A sentence for a log or a user.
    pub fn message(&self) -> (text: String)
        ensures
            text@ == self.spec_message(),
    {
        match self {
            PreloaderError::NotLoaded => "Preloader is not loaded".to_owned(),
            PreloaderError::Loading => "Preloader is loading".to_owned(),
        }
    }
}

} // verus!
