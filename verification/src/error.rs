//! Error model.
//!
//! Errors cross the IPC boundary as their message string, which keeps them
//! predictable and readable on the JavaScript side.
use vstd::prelude::*;
use vstd::string::*;

verus! {

/// Errors that the power monitor can produce.
#[derive(Debug)]
#[non_exhaustive]
pub enum Error {
    /// The current platform has no power-monitoring backend.
    UnsupportedPlatform,
    /// Querying the system power state failed.
    Query(String),
    /// Starting the native event listeners failed.
    ListenerInit(String),
}

/// The mathematical content of an [`Error`].
pub enum ErrorView {
    UnsupportedPlatform,
    Query(Seq<char>),
    ListenerInit(Seq<char>),
}

impl View for Error {
    type V = ErrorView;

    open spec fn view(&self) -> ErrorView {
        match self {
            Error::UnsupportedPlatform => ErrorView::UnsupportedPlatform,
            Error::Query(detail) => ErrorView::Query(detail@),
            Error::ListenerInit(detail) => ErrorView::ListenerInit(detail@),
        }
    }
}

/// The human-readable message of an error.
pub open spec fn error_message(error: ErrorView) -> Seq<char> {
    match error {
        ErrorView::UnsupportedPlatform => "power monitoring is not supported on this platform"@,
        ErrorView::Query(detail) => "failed to query the system power state: "@ + detail,
        ErrorView::ListenerInit(detail) => "failed to initialize the power event listeners: "@
            + detail,
    }
}

/// Result type used throughout the crate.
pub type Result<T> = std::result::Result<T, Error>;

impl Error {
    /// A query error carrying the given detail.
    pub fn query(detail: &str) -> (error: Error)
        ensures
            error@ == ErrorView::Query(detail@),
    {
        Error::Query(String::from_str(detail))
    }

    /// A listener initialization error carrying the given detail.
    pub fn listener(detail: &str) -> (error: Error)
        ensures
            error@ == ErrorView::ListenerInit(detail@),
    {
        Error::ListenerInit(String::from_str(detail))
    }

    /// The human-readable message of this error, which is also its
    /// serialized form.
    pub fn message(&self) -> (text: String)
        ensures
            text@ == error_message(self@),
    {
        match self {
            Error::UnsupportedPlatform => String::from_str(
                "power monitoring is not supported on this platform",
            ),
            Error::Query(detail) => String::from_str(
                "failed to query the system power state: ",
            ).concat(detail.as_str()),
            Error::ListenerInit(detail) => String::from_str(
                "failed to initialize the power event listeners: ",
            ).concat(detail.as_str()),
        }
    }
}

/// Query and listener messages end with their detail and say which of the
/// two failed; the unsupported-platform message is fixed.
pub proof fn lemma_error_messages(detail: Seq<char>)
    ensures
        error_message(ErrorView::Query(detail)) == "failed to query the system power state: "@
            + detail,
        error_message(ErrorView::ListenerInit(detail))
            == "failed to initialize the power event listeners: "@ + detail,
        error_message(ErrorView::UnsupportedPlatform)
            == "power monitoring is not supported on this platform"@,
        error_message(ErrorView::Query(detail)) != error_message(ErrorView::ListenerInit(detail)),
{
    reveal_strlit("failed to query the system power state: ");
    reveal_strlit("failed to initialize the power event listeners: ");
    let q = error_message(ErrorView::Query(detail));
    let l = error_message(ErrorView::ListenerInit(detail));
    assert(q[10] != l[10]);
}

} // verus!
