//! What can go wrong in an operation of the store.

use vstd::prelude::*;

verus! {

/// What every report of an [`Error`] begins with.
pub const PREFIX: &'static str = "Pg session store error: ";

/// Why an operation failed. Each variant holds the cause as the layer that
/// failed worded it.
#[derive(Debug, Clone, PartialEq, Eq)]
pub enum Error {
    /// No connection could be had from the pool.
    Pool(String),
    /// The database refused or lost a request.
    Pg(String),
    /// A record could not be turned into bytes.
    Encode(String),
    /// Stored bytes could not be turned back into a record.
    Decode(String),
}

/// The view of an [`Error`].
pub enum ErrorView {
    Pool(Seq<char>),
    Pg(Seq<char>),
    Encode(Seq<char>),
    Decode(Seq<char>),
}

impl ErrorView {
    /// The wording of the cause.
    pub open spec fn cause(self) -> Seq<char> {
        match self {
            ErrorView::Pool(cause) => cause,
            ErrorView::Pg(cause) => cause,
            ErrorView::Encode(cause) => cause,
            ErrorView::Decode(cause) => cause,
        }
    }

    /// What a caller is told: the cause behind the store's own prefix.
    pub open spec fn message(self) -> Seq<char> {
        PREFIX@ + self.cause()
    }
}

impl View for Error {
    type V = ErrorView;

    open spec fn view(&self) -> ErrorView {
        match self {
            Error::Pool(cause) => ErrorView::Pool(cause@),
            Error::Pg(cause) => ErrorView::Pg(cause@),
            Error::Encode(cause) => ErrorView::Encode(cause@),
            Error::Decode(cause) => ErrorView::Decode(cause@),
        }
    }
}

impl Error {
    /// The one line under which the error is reported to the session layer.
    pub fn message(&self) -> (text: String)
        ensures
            text@ == self@.message(),
    {
        let mut text = String::from_str(PREFIX);
        match self {
            Error::Pool(cause) => text.append(cause.as_str()),
            Error::Pg(cause) => text.append(cause.as_str()),
            Error::Encode(cause) => text.append(cause.as_str()),
            Error::Decode(cause) => text.append(cause.as_str()),
        }
        text
    }
}

} // verus!
