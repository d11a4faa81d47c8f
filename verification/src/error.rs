//! The error that the library reports.

use vstd::prelude::*;

verus! {

/// What went wrong, in words.
#[derive(Debug)]
pub enum Error {
    /// A failure that has nothing but a description.
    Generic(String),
}

impl Error {
    /// The description of the failure.
    pub fn message(&self) -> (text: String)
        ensures
            self matches Error::Generic(inner) && text@ == inner@,
    {
        match self {
            Error::Generic(inner) => inner.clone(),
        }
    }
}

} // verus!
