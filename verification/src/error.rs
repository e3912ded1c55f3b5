//! The error type of the catalogue: every fallible operation reports one of
//! these, and no operation aborts the process.

use vstd::prelude::*;

verus! {

/// What went wrong, with a user-visible detail text.
#[derive(Debug, Clone)]
pub enum AppError {
    /// A failure of the persistence layer, carried as its message.
    Io(String),
    /// A failure of the record store, carried as its message.
    FruitData(String),
    /// Bad user input: field empty, unparsable, or non-positive.
    Validation(String),
    /// A configuration problem.
    Config(String),
    /// Anything else.
    Other(String),
}

impl AppError {
    /// The detail text of the error.
    pub fn detail(&self) -> (m: &String)
        ensures
            m@ == self.spec_detail(),
    {
        match self {
            AppError::Io(m) => m,
            AppError::FruitData(m) => m,
            AppError::Validation(m) => m,
            AppError::Config(m) => m,
            AppError::Other(m) => m,
        }
    }

    /// The detail text, at the specification level.
    pub open spec fn spec_detail(&self) -> Seq<char> {
        match self {
            AppError::Io(m) => m@,
            AppError::FruitData(m) => m@,
            AppError::Validation(m) => m@,
            AppError::Config(m) => m@,
            AppError::Other(m) => m@,
        }
    }
}

} // verus!
