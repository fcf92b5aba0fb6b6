//! What can go wrong while a view is reconciled.

use vstd::prelude::*;
use vstd::string::*;

verus! {

/// Why the store turned a request down.
#[derive(Debug, Clone, Copy, PartialEq, Eq, Structural)]
pub enum StoreErrorKind {
    /// The object asked for does not exist.
    NotFound,
    /// Another writer owns a field that the request sets.
    Conflict,
    /// The store could not serve the request at this time.
    Unavailable,
    /// The store found the object invalid.
    Rejected,
    /// Any other failure.
    Other,
}

/// The kind of failure that the HTTP status code of the store's answer
/// stands for. Where the store gave no answer at all, it was unavailable.
pub open spec fn kind_of_status(code: Option<int>) -> StoreErrorKind {
    match code {
        None => StoreErrorKind::Unavailable,
        Some(code) => if code == 404 {
            StoreErrorKind::NotFound
        } else if code == 409 {
            StoreErrorKind::Conflict
        } else if code == 400 || code == 422 {
            StoreErrorKind::Rejected
        } else if code == 429 || code == 500 || code == 503 || code == 504 {
            StoreErrorKind::Unavailable
        } else {
            StoreErrorKind::Other
        },
    }
}

/// A status code as a mathematical integer.
pub open spec fn code_value(code: Option<u16>) -> Option<int> {
    match code {
        Some(code) => Some(code as int),
        None => None,
    }
}

impl StoreErrorKind {
    /// Classifies a failed request by the status code of the store's answer,
    /// or by the lack of one.
    pub fn from_status(code: Option<u16>) -> (kind: StoreErrorKind)
        ensures
            kind == kind_of_status(code_value(code)),
    {
        match code {
            None => StoreErrorKind::Unavailable,
            Some(code) => {
                if code == 404 {
                    StoreErrorKind::NotFound
                } else if code == 409 {
                    StoreErrorKind::Conflict
                } else if code == 400 || code == 422 {
                    StoreErrorKind::Rejected
                } else if code == 429 || code == 500 || code == 503 || code == 504 {
                    StoreErrorKind::Unavailable
                } else {
                    StoreErrorKind::Other
                }
            },
        }
    }
}

/// A failure reported by the store.
#[derive(Debug)]
pub struct StoreError {
    pub kind: StoreErrorKind,
    pub message: String,
}

/// The view of [`StoreError`]: its strings as their characters, its numbers and maps as
/// mathematical ones.
pub struct StoreErrorView {
    pub kind: StoreErrorKind,
    pub message: Seq<char>,
}

impl View for StoreError {
    type V = StoreErrorView;

    open spec fn view(&self) -> StoreErrorView {
        StoreErrorView { kind: self.kind, message: self.message@ }
    }
}

impl Clone for StoreError {
    fn clone(&self) -> (r: Self)
        ensures
            r@ == self@,
    {
        StoreError { kind: self.kind, message: self.message.clone() }
    }
}

/// A failed reconcile.
#[derive(Debug)]
pub enum Error {
    /// A desired object could not be put into the form that the store takes.
    SerializationError(String),
    /// The store turned a request down.
    KubeError(StoreError),
    /// Cleanup before deletion failed.
    FinalizerError(String),
    /// The host handed over an answer that fits no request in flight.
    UnknownError,
}

/// The view of [`Error`]: its strings as their characters, its numbers and maps as
/// mathematical ones.
pub enum ErrorView {
    SerializationError(Seq<char>),
    KubeError(StoreErrorView),
    FinalizerError(Seq<char>),
    UnknownError,
}

impl View for Error {
    type V = ErrorView;

    open spec fn view(&self) -> ErrorView {
        match self {
            Error::SerializationError(message) => ErrorView::SerializationError(message@),
            Error::KubeError(error) => ErrorView::KubeError(error@),
            Error::FinalizerError(message) => ErrorView::FinalizerError(message@),
            Error::UnknownError => ErrorView::UnknownError,
        }
    }
}

/// The text that describes `error`.
pub open spec fn error_text(error: ErrorView) -> Seq<char> {
    match error {
        ErrorView::SerializationError(message) => "SerializationError: "@ + message,
        ErrorView::KubeError(error) => "Kube Error: "@ + error.message,
        ErrorView::FinalizerError(message) => "Finalizer Error: "@ + message,
        ErrorView::UnknownError => "Unknown Error"@,
    }
}

impl Error {
    /// Describes the error in one line.
    pub fn message(&self) -> (text: String)
        ensures
            text@ == error_text(self@),
    {
        match self {
            Error::SerializationError(message) => {
                let mut text = String::from_str("SerializationError: ");
                text.append(message.as_str());
                text
            },
            Error::KubeError(error) => {
                let mut text = String::from_str("Kube Error: ");
                text.append(error.message.as_str());
                text
            },
            Error::FinalizerError(message) => {
                let mut text = String::from_str("Finalizer Error: ");
                text.append(message.as_str());
                text
            },
            Error::UnknownError => String::from_str("Unknown Error"),
        }
    }
}

impl Clone for Error {
    fn clone(&self) -> (r: Self)
        ensures
            r@ == self@,
    {
        match self {
            Error::SerializationError(message) => Error::SerializationError(message.clone()),
            Error::KubeError(error) => Error::KubeError(error.clone()),
            Error::FinalizerError(message) => Error::FinalizerError(message.clone()),
            Error::UnknownError => Error::UnknownError,
        }
    }
}

} // verus!
