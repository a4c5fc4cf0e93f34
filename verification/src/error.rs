//! The errors that supervision and job control report.

use crate::text::{joined, decimal_text, push_signed_decimal};
use vstd::prelude::*;
use vstd::string::StringExecFns;

verus! {

/// Everything that can go wrong while the worker is provisioned, launched,
/// supervised and talked to. Where the cause comes from the operating system
/// or from a transport, the variant carries its text.
#[derive(Debug, PartialEq, Eq)]
pub enum Aria2Error {
    /// The worker answered a call with an error object.
    RpcError(i32, String),
    /// The call did not reach the worker or its answer did not arrive.
    TransportError(String),
    /// A request or an answer could not be written or read as JSON.
    SerializationError(String),
    /// The control endpoint does not answer.
    DaemonUnavailable(String),
    /// The worker binary could not be fetched.
    BinaryDownloadFailed(String),
    /// The worker binary could not be unpacked.
    BinaryExtractionFailed(String),
    /// The worker could not be launched.
    ProcessStartFailed(String),
    /// The worker could not be terminated, or ended on its own.
    ProcessManagementError(String),
    /// The worker crashed more often than the configured ceiling allows.
    RestartLimitExceeded,
    /// A file or directory operation failed.
    IoError(String),
    /// The worker does not know the job.
    TaskNotFound(String),
    /// The address is not one the worker can fetch.
    InvalidUrl(String),
    /// The target path cannot be used.
    InvalidPath(String),
    /// The kind of download is not supported.
    UnsupportedType(String),
    /// A job state reported by the worker has no counterpart.
    StateMappingError(String),
    /// Any other failure.
    General(String),
}

/// An error with its texts as sequences of characters.
pub enum Aria2ErrorView {
    RpcError(i32, Seq<char>),
    TransportError(Seq<char>),
    SerializationError(Seq<char>),
    DaemonUnavailable(Seq<char>),
    BinaryDownloadFailed(Seq<char>),
    BinaryExtractionFailed(Seq<char>),
    ProcessStartFailed(Seq<char>),
    ProcessManagementError(Seq<char>),
    RestartLimitExceeded,
    IoError(Seq<char>),
    TaskNotFound(Seq<char>),
    InvalidUrl(Seq<char>),
    InvalidPath(Seq<char>),
    UnsupportedType(Seq<char>),
    StateMappingError(Seq<char>),
    General(Seq<char>),
}

impl View for Aria2Error {
    type V = Aria2ErrorView;

    open spec fn view(&self) -> Aria2ErrorView {
        match *self {
            Aria2Error::RpcError(code, message) => Aria2ErrorView::RpcError(code, message@),
            Aria2Error::TransportError(detail) => Aria2ErrorView::TransportError(detail@),
            Aria2Error::SerializationError(detail) => Aria2ErrorView::SerializationError(detail@),
            Aria2Error::DaemonUnavailable(detail) => Aria2ErrorView::DaemonUnavailable(detail@),
            Aria2Error::BinaryDownloadFailed(detail) => Aria2ErrorView::BinaryDownloadFailed(
                detail@,
            ),
            Aria2Error::BinaryExtractionFailed(detail) => Aria2ErrorView::BinaryExtractionFailed(
                detail@,
            ),
            Aria2Error::ProcessStartFailed(detail) => Aria2ErrorView::ProcessStartFailed(detail@),
            Aria2Error::ProcessManagementError(detail) => Aria2ErrorView::ProcessManagementError(
                detail@,
            ),
            Aria2Error::RestartLimitExceeded => Aria2ErrorView::RestartLimitExceeded,
            Aria2Error::IoError(detail) => Aria2ErrorView::IoError(detail@),
            Aria2Error::TaskNotFound(detail) => Aria2ErrorView::TaskNotFound(detail@),
            Aria2Error::InvalidUrl(detail) => Aria2ErrorView::InvalidUrl(detail@),
            Aria2Error::InvalidPath(detail) => Aria2ErrorView::InvalidPath(detail@),
            Aria2Error::UnsupportedType(detail) => Aria2ErrorView::UnsupportedType(detail@),
            Aria2Error::StateMappingError(detail) => Aria2ErrorView::StateMappingError(detail@),
            Aria2Error::General(detail) => Aria2ErrorView::General(detail@),
        }
    }
}

impl Aria2ErrorView {
    /// The text shown for the error.
    pub open spec fn message(self) -> Seq<char> {
        match self {
            Aria2ErrorView::RpcError(code, message) => "JSON-RPC error: code="@ + decimal_text(
                code as int,
            ) + ", message="@ + message,
            Aria2ErrorView::TransportError(detail) => "HTTP transport error: "@ + detail,
            Aria2ErrorView::SerializationError(detail) => "JSON serialization error: "@ + detail,
            Aria2ErrorView::DaemonUnavailable(detail) => "Aria2 daemon unavailable: "@ + detail,
            Aria2ErrorView::BinaryDownloadFailed(detail) => "Binary download failed: "@ + detail,
            Aria2ErrorView::BinaryExtractionFailed(detail) => "Binary extraction failed: "@
                + detail,
            Aria2ErrorView::ProcessStartFailed(detail) => "Process start failed: "@ + detail,
            Aria2ErrorView::ProcessManagementError(detail) => "Process management error: "@
                + detail,
            Aria2ErrorView::RestartLimitExceeded => "Maximum restart attempts exceeded"@,
            Aria2ErrorView::IoError(detail) => "IO error: "@ + detail,
            Aria2ErrorView::TaskNotFound(detail) => "Task not found in aria2: "@ + detail,
            Aria2ErrorView::InvalidUrl(detail) => "Invalid URL format: "@ + detail,
            Aria2ErrorView::InvalidPath(detail) => "Invalid file path: "@ + detail,
            Aria2ErrorView::UnsupportedType(detail) => "Unsupported download type: "@ + detail,
            Aria2ErrorView::StateMappingError(detail) => "State mapping error: "@ + detail,
            Aria2ErrorView::General(detail) => "General error: "@ + detail,
        }
    }
}

/// The view of an outcome that carries no value on success.
pub open spec fn outcome_view(outcome: Result<(), Aria2Error>) -> Result<(), Aria2ErrorView> {
    match outcome {
        Ok(_) => Ok(()),
        Err(error) => Err(error@),
    }
}

impl Aria2Error {
    /// Renders the error as text.
    pub fn message(&self) -> (text: String)
        ensures
            text@ == self@.message(),
    {
        match self {
            Aria2Error::RpcError(code, message) => {
                let mut text = String::from_str("JSON-RPC error: code=");
                push_signed_decimal(&mut text, *code as i64);
                text.append(", message=");
                text.append(message.as_str());
                text
            },
            Aria2Error::TransportError(detail) => joined("HTTP transport error: ", detail.as_str()),
            Aria2Error::SerializationError(detail) => joined(
                "JSON serialization error: ",
                detail.as_str(),
            ),
            Aria2Error::DaemonUnavailable(detail) => joined(
                "Aria2 daemon unavailable: ",
                detail.as_str(),
            ),
            Aria2Error::BinaryDownloadFailed(detail) => joined(
                "Binary download failed: ",
                detail.as_str(),
            ),
            Aria2Error::BinaryExtractionFailed(detail) => joined(
                "Binary extraction failed: ",
                detail.as_str(),
            ),
            Aria2Error::ProcessStartFailed(detail) => joined(
                "Process start failed: ",
                detail.as_str(),
            ),
            Aria2Error::ProcessManagementError(detail) => joined(
                "Process management error: ",
                detail.as_str(),
            ),
            Aria2Error::RestartLimitExceeded => String::from_str(
                "Maximum restart attempts exceeded",
            ),
            Aria2Error::IoError(detail) => joined("IO error: ", detail.as_str()),
            Aria2Error::TaskNotFound(detail) => joined("Task not found in aria2: ", detail.as_str()),
            Aria2Error::InvalidUrl(detail) => joined("Invalid URL format: ", detail.as_str()),
            Aria2Error::InvalidPath(detail) => joined("Invalid file path: ", detail.as_str()),
            Aria2Error::UnsupportedType(detail) => joined(
                "Unsupported download type: ",
                detail.as_str(),
            ),
            Aria2Error::StateMappingError(detail) => joined(
                "State mapping error: ",
                detail.as_str(),
            ),
            Aria2Error::General(detail) => joined("General error: ", detail.as_str()),
        }
    }
}

} // verus!
