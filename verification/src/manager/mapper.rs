//! From the state that the worker reports of a job to the state that the
//! host shows.

use crate::text::{joined, same_text, text_of};
use vstd::prelude::*;
use vstd::string::StringExecFns;

verus! {

/// A job as the worker describes it in full.
#[derive(Debug, PartialEq, Eq)]
pub struct Aria2Status {
    /// The worker's identifier of the job.
    pub gid: String,
    /// The worker's word for the state of the job.
    pub status: String,
    /// Size of the job in bytes, in decimal.
    pub total_length: String,
    /// Bytes that have arrived, in decimal.
    pub completed_length: String,
    /// Bytes per second at which the job arrives, in decimal.
    pub download_speed: String,
    /// Bytes per second at which the job is shared, in decimal.
    pub upload_speed: String,
    /// Paths of the files of the job.
    pub files: Vec<String>,
    /// Number of the error that ended the job, if one did.
    pub error_code: Option<String>,
    /// Text of the error that ended the job, if one did.
    pub error_message: Option<String>,
}

/// The state of a job as the host shows it.
#[derive(Debug, PartialEq, Eq)]
pub enum DownloadStatus {
    /// The job waits for its turn.
    Waiting,
    /// The job is being downloaded.
    Downloading,
    /// The job is paused.
    Paused,
    /// The job is complete.
    Completed,
    /// The job has failed; the text says why.
    Failed(String),
}

/// A [`DownloadStatus`] with its text as a sequence of characters.
pub enum DownloadStatusView {
    Waiting,
    Downloading,
    Paused,
    Completed,
    Failed(Seq<char>),
}

impl View for DownloadStatus {
    type V = DownloadStatusView;

    open spec fn view(&self) -> DownloadStatusView {
        match *self {
            DownloadStatus::Waiting => DownloadStatusView::Waiting,
            DownloadStatus::Downloading => DownloadStatusView::Downloading,
            DownloadStatus::Paused => DownloadStatusView::Paused,
            DownloadStatus::Completed => DownloadStatusView::Completed,
            DownloadStatus::Failed(reason) => DownloadStatusView::Failed(reason@),
        }
    }
}

/// What the host shows for the worker's word `status`. A failed job is
/// shown with the text of its error, or else with the number of its error,
/// or else as an error of unknown number; a removed job is shown as
/// cancelled; a word that the worker is not known to use is shown as a
/// failure that names the word.
pub open spec fn status_of(
    status: Seq<char>,
    error_code: Option<Seq<char>>,
    error_message: Option<Seq<char>>,
) -> DownloadStatusView {
    if status == "active"@ {
        DownloadStatusView::Downloading
    } else if status == "waiting"@ {
        DownloadStatusView::Waiting
    } else if status == "paused"@ {
        DownloadStatusView::Paused
    } else if status == "complete"@ {
        DownloadStatusView::Completed
    } else if status == "error"@ {
        DownloadStatusView::Failed(
            match error_message {
                Some(message) => message,
                None => "Error code: "@ + (match error_code {
                    Some(code) => code,
                    None => "unknown"@,
                }),
            },
        )
    } else if status == "removed"@ {
        DownloadStatusView::Failed("Download cancelled"@)
    } else {
        DownloadStatusView::Failed("Unknown status: "@ + status)
    }
}

/// Tells what the host shows for a job that the worker describes.
pub fn map_aria2_status(aria2_status: &Aria2Status) -> (status: DownloadStatus)
    ensures
        status@ == status_of(
            aria2_status.status@,
            text_of(aria2_status.error_code),
            text_of(aria2_status.error_message),
        ),
{
    let word = aria2_status.status.as_str();
    if same_text(word, "active") {
        DownloadStatus::Downloading
    } else if same_text(word, "waiting") {
        DownloadStatus::Waiting
    } else if same_text(word, "paused") {
        DownloadStatus::Paused
    } else if same_text(word, "complete") {
        DownloadStatus::Completed
    } else if same_text(word, "error") {
        let reason = match &aria2_status.error_message {
            Some(message) => message.clone(),
            None => match &aria2_status.error_code {
                Some(code) => joined("Error code: ", code.as_str()),
                None => joined("Error code: ", "unknown"),
            },
        };
        DownloadStatus::Failed(reason)
    } else if same_text(word, "removed") {
        DownloadStatus::Failed(String::from_str("Download cancelled"))
    } else {
        DownloadStatus::Failed(joined("Unknown status: ", word))
    }
}

} // verus!
