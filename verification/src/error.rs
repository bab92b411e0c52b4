//! Failures that the snapshot store and the record decoders report.

use vstd::prelude::*;

verus! {

/// What can go wrong while reading room state.
#[derive(Clone, Debug, PartialEq, Eq)]
pub enum Error {
    /// A stored record does not have the shape it must have. The text says
    /// which record.
    BadDatabase(&'static str),
    /// The storage backend could not answer at all. The text is the
    /// backend's own description.
    Unavailable(String),
}

impl Error {
    /// A corrupt-record error with the given description.
    pub fn bad_database(message: &'static str) -> (e: Error)
        ensures
            e == Error::BadDatabase(message),
    {
        Error::BadDatabase(message)
    }

    /// Whether this error reports a corrupt record rather than a backend
    /// that is out of reach.
    pub open spec fn is_corruption(self) -> bool {
        self is BadDatabase
    }

    /// A line of text for logs and messages.
    pub fn message(&self) -> (text: String)
        ensures
            text@ == self.message_text(),
    {
        match self {
            Error::BadDatabase(message) => (*message).to_owned(),
            Error::Unavailable(message) => message.clone(),
        }
    }

    /// The text that [`Error::message`] returns.
    pub open spec fn message_text(self) -> Seq<char> {
        match self {
            Error::BadDatabase(message) => message@,
            Error::Unavailable(message) => message@,
        }
    }
}

} // verus!
