//! Progress of a job that consists of several files.

use crate::client::types::{file_views, FileReportView, StatusReport, StatusReportView};
use crate::text::{parse_unsigned, parsed_unsigned, text_of};
use vstd::prelude::*;

verus! {

/// Sums the files of a job.
pub struct ProgressAggregator;

/// Size and progress of a job, over all its files.
#[derive(Debug, Clone, Copy, PartialEq, Eq)]
pub struct AggregatedProgress {
    /// Bytes that the files hold in all.
    pub total_bytes: u64,
    /// Bytes that have arrived.
    pub downloaded_bytes: u64,
}

/// The number of bytes that `text` names; a text that is missing, or that
/// is no decimal number of 64 bits, names none.
pub open spec fn byte_count(text: Option<Seq<char>>) -> nat {
    match text {
        Some(text) => match parsed_unsigned(text, u64::MAX as nat) {
            Some(count) => count,
            None => 0,
        },
        None => 0,
    }
}

/// The sizes of the files, added up.
pub open spec fn total_length(files: Seq<FileReportView>) -> nat
    decreases files.len(),
{
    if files.len() == 0 {
        0
    } else {
        total_length(files.drop_last()) + byte_count(files.last().length)
    }
}

/// The bytes that have arrived of the files, added up.
pub open spec fn completed_length(files: Seq<FileReportView>) -> nat
    decreases files.len(),
{
    if files.len() == 0 {
        0
    } else {
        completed_length(files.drop_last()) + byte_count(files.last().completed_length)
    }
}

/// The files of a report; a report without a list of files has none.
pub open spec fn files_of(status: StatusReportView) -> Seq<FileReportView> {
    match status.files {
        Some(files) => files,
        None => Seq::empty(),
    }
}

/// `count` as 64 bits hold it: sums wrap round.
pub open spec fn wrapped(count: nat) -> u64 {
    (count % 0x1_0000_0000_0000_0000) as u64
}

fn count_bytes(text: &Option<String>) -> (count: u64)
    ensures
        count == byte_count(text_of(*text)),
{
    match text {
        Some(text) => match parse_unsigned(text.as_str(), u64::MAX) {
            Some(count) => count,
            None => 0,
        },
        None => 0,
    }
}

impl ProgressAggregator {
    /// Adds up what the worker reports of each file of the job. Files whose
    /// numbers cannot be read count as empty.
    pub fn aggregate(status: &StatusReport) -> (progress: AggregatedProgress)
        ensures
            progress.total_bytes == wrapped(total_length(files_of(status@))),
            progress.downloaded_bytes == wrapped(completed_length(files_of(status@))),
    {
        let mut total: u64 = 0;
        let mut downloaded: u64 = 0;
        match &status.files {
            Some(files) => {
                let mut i: usize = 0;
                while i < files.len()
                    invariant
                        i <= files.len(),
                        total == wrapped(total_length(file_views(files@).take(i as int))),
                        downloaded == wrapped(
                            completed_length(file_views(files@).take(i as int)),
                        ),
                    decreases files.len() - i,
                {
                    proof {
                        let seen = file_views(files@).take(i + 1);
                        assert(seen.drop_last() =~= file_views(files@).take(i as int));
                        assert(seen.last() == files@[i as int]@);
                    }
                    total = total.wrapping_add(count_bytes(&files[i].length));
                    downloaded = downloaded.wrapping_add(count_bytes(&files[i].completed_length));
                    i += 1;
                }
                assert(file_views(files@).take(files@.len() as int) =~= file_views(files@));
            },
            None => {},
        }
        AggregatedProgress { total_bytes: total, downloaded_bytes: downloaded }
    }
}

} // verus!
