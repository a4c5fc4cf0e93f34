//! Getting the worker binary into its place.

use crate::daemon::binary::{
    archive_entries, archive_len, entry_bytes, entry_name, looked_up, open_archive, read_out,
    zip_opening, ArchiveEntry,
};
use crate::daemon::platform::{join, join_spec, Platform};
use crate::simple::{unit_result, Aria2Error, Aria2ErrorView, Aria2Result};
use crate::text::{ends_with, joined, text_of};
use vstd::prelude::*;
use vstd::string::StringExecFns;

verus! {

/// Whether the entry `name` of the archive is the worker binary.
pub fn is_binary_entry(name: &str) -> (yes: bool)
    ensures
        yes == "aria2c.exe"@.is_suffix_of(name@),
{
    ends_with(name, "aria2c.exe")
}

/// Where the search for the binary among `entries` stops, going through
/// them in order: at the first entry that cannot be looked up, with the
/// text of its error, or at the first whose name ends as the binary's
/// does, with its place. The search that stops nowhere has gone through
/// them all.
pub open spec fn search_aria2(entries: Seq<ArchiveEntry>) -> Option<Result<int, Seq<char>>>
    decreases entries.len(),
{
    if entries.len() == 0 {
        None
    } else {
        match search_aria2(entries.drop_last()) {
            Some(stop) => Some(stop),
            None => match looked_up(entries.last()) {
                Err(reason) => Some(Err(reason)),
                Ok(name) => if "aria2c.exe"@.is_suffix_of(name) {
                    Some(Ok(entries.len() - 1))
                } else {
                    None
                },
            },
        }
    }
}

/// A search that has stopped among the first entries has stopped there
/// among all.
pub proof fn lemma_search_aria2_stays(entries: Seq<ArchiveEntry>, seen: int)
    requires
        0 <= seen <= entries.len(),
        search_aria2(entries.take(seen)) is Some,
    ensures
        search_aria2(entries) == search_aria2(entries.take(seen)),
    decreases entries.len() - seen,
{
    if seen < entries.len() {
        assert(entries.take(seen + 1).drop_last() =~= entries.take(seen));
        lemma_search_aria2_stays(entries, seen + 1);
    } else {
        assert(entries.take(seen) =~= entries);
    }
}

/// The place where a search finds the binary is a place in the archive, at
/// an entry that can be looked up and is the binary.
pub proof fn lemma_search_aria2_finds(entries: Seq<ArchiveEntry>)
    ensures
        search_aria2(entries) matches Some(Ok(index)) ==> {
            &&& 0 <= index < entries.len()
            &&& looked_up(entries[index]) matches Ok(name) && "aria2c.exe"@.is_suffix_of(name)
        },
    decreases entries.len(),
{
    if entries.len() > 0 {
        let before = entries.drop_last();
        lemma_search_aria2_finds(before);
        match search_aria2(before) {
            Some(Ok(index)) => {
                assert(before[index] == entries[index]);
            },
            _ => {},
        }
    }
}

/// The error that says the archive does not hold the binary.
pub open spec fn aria2_missing() -> Aria2ErrorView {
    Aria2ErrorView::DownloadError("ZIP文件中未找到 aria2c.exe"@)
}

/// The place of the worker binary among `entries`: where the search stops
/// at it. A search that stops at an entry that cannot be looked up fails
/// with the text of that error, and one that stops nowhere fails because
/// the binary is missing.
pub open spec fn aria2_location_of(entries: Seq<ArchiveEntry>) -> Result<int, Aria2ErrorView> {
    match search_aria2(entries) {
        Some(Ok(index)) => Ok(index),
        Some(Err(reason)) => Err(Aria2ErrorView::DownloadError(reason)),
        None => Err(aria2_missing()),
    }
}

/// The worker binary among `entries`: the bytes of the entry at its place.
/// The failure to find the place is handed on, and an entry that cannot be
/// read to its end fails with the text of that error.
pub open spec fn aria2_of(entries: Seq<ArchiveEntry>) -> Result<Seq<u8>, Aria2ErrorView> {
    match aria2_location_of(entries) {
        Err(error) => Err(error),
        Ok(index) => match read_out(entries[index]) {
            Ok(bytes) => Ok(bytes),
            Err(reason) => Err(Aria2ErrorView::DownloadError(reason)),
        },
    }
}

/// The worker binary in what came of opening an archive: bytes that are no
/// archive fail with the text of that error; else the binary is the one
/// among the entries.
pub open spec fn aria2_extraction_of(opening: Result<Seq<ArchiveEntry>, Seq<char>>) -> Result<
    Seq<u8>,
    Aria2ErrorView,
> {
    match opening {
        Err(reason) => Err(Aria2ErrorView::DownloadError(reason)),
        Ok(entries) => aria2_of(entries),
    }
}

/// The view of a result that carries a place.
pub open spec fn place_result(outcome: Aria2Result<usize>) -> Result<int, Aria2ErrorView> {
    match outcome {
        Ok(index) => Ok(index as int),
        Err(error) => Err(error@),
    }
}

/// The view of a result that carries bytes.
pub open spec fn bytes_result(outcome: Aria2Result<Vec<u8>>) -> Result<Seq<u8>, Aria2ErrorView> {
    match outcome {
        Ok(bytes) => Ok(bytes@),
        Err(error) => Err(error@),
    }
}

/// Looks through the entries of `archive`, in order, for the worker
/// binary. The entry that is returned is the first that is the binary. The
/// search fails where an entry before it cannot be looked up, and where no
/// entry is the binary.
pub fn locate_aria2(archive: &mut zip::ZipArchive<std::io::Cursor<Vec<u8>>>) -> (found: Aria2Result<
    usize,
>)
    ensures
        archive_entries(*final(archive)) == archive_entries(*old(archive)),
        place_result(found) == aria2_location_of(archive_entries(*old(archive))),
{
    let ghost entries = archive_entries(*archive);
    let len = archive_len(archive);
    let mut i: usize = 0;
    while i < len
        invariant
            i <= len,
            len == entries.len(),
            entries == archive_entries(*old(archive)),
            archive_entries(*archive) == entries,
            search_aria2(entries.take(i as int)) is None,
        decreases len - i,
    {
        proof {
            assert(entries.take(i + 1).drop_last() =~= entries.take(i as int));
            assert(entries.take(i + 1).last() == entries[i as int]);
        }
        match entry_name(archive, i) {
            Ok(name) => {
                if is_binary_entry(name.as_str()) {
                    proof {
                        lemma_search_aria2_stays(entries, i + 1);
                    }
                    return Ok(i);
                }
            },
            Err(reason) => {
                proof {
                    lemma_search_aria2_stays(entries, i + 1);
                }
                return Err(Aria2Error::DownloadError(reason));
            },
        }
        i += 1;
    }
    assert(entries.take(entries.len() as int) =~= entries);
    Err(Aria2Error::DownloadError(String::from_str("ZIP文件中未找到 aria2c.exe")))
}

/// Takes the worker binary out of `archive`: the entry is looked for and
/// read to its end.
pub fn extract_aria2_from(archive: &mut zip::ZipArchive<std::io::Cursor<Vec<u8>>>) -> (binary:
    Aria2Result<Vec<u8>>)
    ensures
        archive_entries(*final(archive)) == archive_entries(*old(archive)),
        bytes_result(binary) == aria2_of(archive_entries(*old(archive))),
{
    match locate_aria2(archive) {
        Err(error) => Err(error),
        Ok(index) => {
            proof {
                lemma_search_aria2_finds(archive_entries(*archive));
            }
            match entry_bytes(archive, index) {
                Ok(bytes) => Ok(bytes),
                Err(reason) => Err(Aria2Error::DownloadError(reason)),
            }
        },
    }
}

/// Takes the worker binary out of the archive `zip_data`: the bytes are
/// opened as an archive, and the binary is taken from its entries. Every
/// failure is a download error with the text of what failed.
pub fn extract_aria2(zip_data: Vec<u8>) -> (binary: Aria2Result<Vec<u8>>)
    ensures
        bytes_result(binary) == aria2_extraction_of(zip_opening(zip_data@)),
{
    match open_archive(zip_data) {
        Err(reason) => Err(Aria2Error::DownloadError(reason)),
        Ok(archive) => {
            let mut archive = archive;
            extract_aria2_from(&mut archive)
        },
    }
}

/// Where the worker binary is fetched from first.
pub const ARIA2_MAIN_URL: &'static str =
    "https://github.com/aria2/aria2/releases/download/release-1.37.0/aria2-1.37.0-win-64bit-build1.zip";

/// Where the worker binary is fetched from when the first address fails.
pub const ARIA2_BACKUP_URL: &'static str =
    "https://gitee.com/burncloud/aria2/raw/master/aria2-1.37.0-win-64bit-build1.zip";

/// The step of getting the binary that the host has been asked to
/// perform.
#[derive(Debug, Clone, Copy, PartialEq, Eq)]
pub enum SetupPhase {
    /// The directory of the binary is being created.
    CreatingDirectory,
    /// The binary is being looked for.
    CheckingBinary,
    /// The archive is being fetched from the first address.
    FetchingMain,
    /// The archive is being fetched from the second address.
    FetchingBackup,
    /// The binary is being taken out of the archive.
    Extracting,
    /// The archive is being removed.
    RemovingArchive,
    /// The binary is being looked for once more.
    ConfirmingBinary,
    /// Nothing is under way.
    Done,
}

/// What the setup asks its host to do.
#[derive(Debug, PartialEq, Eq)]
pub enum SetupEffect {
    /// Create the directory and its parents; report with
    /// [`SetupEvent::Completed`].
    CreateDirectory(String),
    /// See whether the file exists; report with [`SetupEvent::Exists`].
    CheckFile(String),
    /// Fetch the address into the file; report with
    /// [`SetupEvent::Completed`].
    Download { url: String, to: String },
    /// Take the worker binary out of the archive into the directory;
    /// report with [`SetupEvent::Completed`].
    Extract { archive: String, into: String },
    /// Remove the file, whatever comes of it; report with
    /// [`SetupEvent::Completed`].
    RemoveFile(String),
    /// The setup is over: the path of the binary, or the error.
    Finished(Aria2Result<String>),
}

/// A [`SetupEffect`] with its texts as sequences of characters.
pub enum SetupEffectView {
    CreateDirectory(Seq<char>),
    CheckFile(Seq<char>),
    Download { url: Seq<char>, to: Seq<char> },
    Extract { archive: Seq<char>, into: Seq<char> },
    RemoveFile(Seq<char>),
    Finished(Result<Seq<char>, Aria2ErrorView>),
}

impl View for SetupEffect {
    type V = SetupEffectView;

    open spec fn view(&self) -> SetupEffectView {
        match *self {
            SetupEffect::CreateDirectory(path) => SetupEffectView::CreateDirectory(path@),
            SetupEffect::CheckFile(path) => SetupEffectView::CheckFile(path@),
            SetupEffect::Download { url, to } => SetupEffectView::Download { url: url@, to: to@ },
            SetupEffect::Extract { archive, into } => SetupEffectView::Extract {
                archive: archive@,
                into: into@,
            },
            SetupEffect::RemoveFile(path) => SetupEffectView::RemoveFile(path@),
            SetupEffect::Finished(Ok(path)) => SetupEffectView::Finished(Ok(path@)),
            SetupEffect::Finished(Err(error)) => SetupEffectView::Finished(Err(error@)),
        }
    }
}

/// What the host reports of the effect it was asked for.
#[derive(Debug, PartialEq, Eq)]
pub enum SetupEvent {
    /// The effect is done, or the text says why it is not.
    Completed(Result<(), String>),
    /// Whether the file exists.
    Exists(bool),
}

/// A [`SetupEvent`] with its text as a sequence of characters.
pub enum SetupEventView {
    Completed(Result<(), Seq<char>>),
    Exists(bool),
}

impl View for SetupEvent {
    type V = SetupEventView;

    open spec fn view(&self) -> SetupEventView {
        match *self {
            SetupEvent::Completed(Ok(_)) => SetupEventView::Completed(Ok(())),
            SetupEvent::Completed(Err(reason)) => SetupEventView::Completed(Err(reason@)),
            SetupEvent::Exists(exists) => SetupEventView::Exists(exists),
        }
    }
}

/// The state of a setup of the worker binary.
pub struct SetupView {
    /// The step under way.
    pub phase: SetupPhase,
    /// The platform of the host.
    pub platform: Platform,
    /// The directory that the binary is kept in.
    pub target_dir: Seq<char>,
}

impl SetupView {
    /// Where the archive is kept while the setup lasts.
    pub open spec fn zip_path(self) -> Seq<char> {
        join_spec(self.platform, self.target_dir, "aria2.zip"@)
    }

    /// Where the binary is to be.
    pub open spec fn exe_path(self) -> Seq<char> {
        join_spec(self.platform, self.target_dir, "aria2c.exe"@)
    }

    /// The setup in another phase.
    pub open spec fn in_phase(self, phase: SetupPhase) -> Self {
        SetupView { phase, ..self }
    }

    /// The setup over, with the given result.
    pub open spec fn over(self, result: Result<Seq<char>, Aria2ErrorView>) -> (
        Self,
        SetupEffectView,
    ) {
        (self.in_phase(SetupPhase::Done), SetupEffectView::Finished(result))
    }

    /// The setup begins with the directory of the binary.
    pub open spec fn begins(platform: Platform, target_dir: Seq<char>) -> (Self, SetupEffectView) {
        (
            SetupView { phase: SetupPhase::CreatingDirectory, platform, target_dir },
            SetupEffectView::CreateDirectory(target_dir),
        )
    }

    /// What follows when the host reports `event`.
    ///
    /// A binary that is there already is the result. Otherwise the archive
    /// is fetched from the first address, and from the second if that
    /// fails; the binary is taken out of it, the archive is removed, and
    /// the binary must be there then. Each failure ends the setup with a
    /// download error. An event that answers nothing the setup waits for
    /// ends it with an error.
    pub open spec fn applies(self, event: SetupEventView) -> (Self, SetupEffectView) {
        match (self.phase, event) {
            (SetupPhase::CreatingDirectory, SetupEventView::Completed(Ok(_))) => (
                self.in_phase(SetupPhase::CheckingBinary),
                SetupEffectView::CheckFile(self.exe_path()),
            ),
            (SetupPhase::CreatingDirectory, SetupEventView::Completed(Err(reason))) => self.over(
                Err(Aria2ErrorView::DownloadError("创建目录失败: "@ + reason)),
            ),
            (SetupPhase::CheckingBinary, SetupEventView::Exists(true)) => self.over(
                Ok(self.exe_path()),
            ),
            (SetupPhase::CheckingBinary, SetupEventView::Exists(false)) => (
                self.in_phase(SetupPhase::FetchingMain),
                SetupEffectView::Download { url: ARIA2_MAIN_URL@, to: self.zip_path() },
            ),
            (SetupPhase::FetchingMain, SetupEventView::Completed(Ok(_))) => (
                self.in_phase(SetupPhase::Extracting),
                SetupEffectView::Extract { archive: self.zip_path(), into: self.target_dir },
            ),
            (SetupPhase::FetchingMain, SetupEventView::Completed(Err(_))) => (
                self.in_phase(SetupPhase::FetchingBackup),
                SetupEffectView::Download { url: ARIA2_BACKUP_URL@, to: self.zip_path() },
            ),
            (SetupPhase::FetchingBackup, SetupEventView::Completed(Ok(_))) => (
                self.in_phase(SetupPhase::Extracting),
                SetupEffectView::Extract { archive: self.zip_path(), into: self.target_dir },
            ),
            (SetupPhase::FetchingBackup, SetupEventView::Completed(Err(reason))) => self.over(
                Err(
                    Aria2ErrorView::DownloadError(
                        "所有下载链接均失败: "@ + Aria2ErrorView::DownloadError(reason).message(),
                    ),
                ),
            ),
            (SetupPhase::Extracting, SetupEventView::Completed(Ok(_))) => (
                self.in_phase(SetupPhase::RemovingArchive),
                SetupEffectView::RemoveFile(self.zip_path()),
            ),
            (SetupPhase::Extracting, SetupEventView::Completed(Err(reason))) => self.over(
                Err(Aria2ErrorView::DownloadError(reason)),
            ),
            (SetupPhase::RemovingArchive, SetupEventView::Completed(_)) => (
                self.in_phase(SetupPhase::ConfirmingBinary),
                SetupEffectView::CheckFile(self.exe_path()),
            ),
            (SetupPhase::ConfirmingBinary, SetupEventView::Exists(true)) => self.over(
                Ok(self.exe_path()),
            ),
            (SetupPhase::ConfirmingBinary, SetupEventView::Exists(false)) => self.over(
                Err(Aria2ErrorView::DownloadError("解压后未找到 aria2c.exe"@)),
            ),
            _ => self.over(
                Err(Aria2ErrorView::DownloadError("event does not answer the step under way"@)),
            ),
        }
    }
}

/// A setup of the worker binary.
#[derive(Debug, PartialEq, Eq)]
pub struct Setup {
    phase: SetupPhase,
    platform: Platform,
    target_dir: String,
}

impl View for Setup {
    type V = SetupView;

    closed spec fn view(&self) -> SetupView {
        SetupView { phase: self.phase, platform: self.platform, target_dir: self.target_dir@ }
    }
}

/// Begins to get the worker binary into `target_dir` and says what the
/// host does first.
pub fn download_aria2(platform: Platform, target_dir: String) -> (begun: (Setup, SetupEffect))
    ensures
        (begun.0@, begun.1@) == SetupView::begins(platform, target_dir@),
{
    let effect = SetupEffect::CreateDirectory(target_dir.clone());
    (Setup { phase: SetupPhase::CreatingDirectory, platform, target_dir }, effect)
}

impl Setup {
    fn zip_path(&self) -> (path: String)
        ensures
            path@ == self@.zip_path(),
    {
        join(self.platform, self.target_dir.as_str(), "aria2.zip")
    }

    fn exe_path(&self) -> (path: String)
        ensures
            path@ == self@.exe_path(),
    {
        join(self.platform, self.target_dir.as_str(), "aria2c.exe")
    }

    fn fail(&mut self, prefix: &str, reason: &str) -> (effect: SetupEffect)
        ensures
            (final(self)@, effect@) == old(self)@.over(
                Err(Aria2ErrorView::DownloadError(prefix@ + reason@)),
            ),
    {
        self.phase = SetupPhase::Done;
        SetupEffect::Finished(Err(Aria2Error::DownloadError(joined(prefix, reason))))
    }

    /// Takes what the host reports and says what it does next.
    pub fn resume(&mut self, event: SetupEvent) -> (effect: SetupEffect)
        ensures
            (final(self)@, effect@) == old(self)@.applies(event@),
    {
        match (self.phase, event) {
            (SetupPhase::CreatingDirectory, SetupEvent::Completed(Ok(_))) => {
                self.phase = SetupPhase::CheckingBinary;
                SetupEffect::CheckFile(self.exe_path())
            },
            (SetupPhase::CreatingDirectory, SetupEvent::Completed(Err(reason))) => self.fail(
                "创建目录失败: ",
                reason.as_str(),
            ),
            (SetupPhase::CheckingBinary, SetupEvent::Exists(true)) => {
                self.phase = SetupPhase::Done;
                SetupEffect::Finished(Ok(self.exe_path()))
            },
            (SetupPhase::CheckingBinary, SetupEvent::Exists(false)) => {
                self.phase = SetupPhase::FetchingMain;
                SetupEffect::Download { url: String::from_str(ARIA2_MAIN_URL), to: self.zip_path() }
            },
            (SetupPhase::FetchingMain, SetupEvent::Completed(Ok(_))) => {
                self.phase = SetupPhase::Extracting;
                SetupEffect::Extract { archive: self.zip_path(), into: self.target_dir.clone() }
            },
            (SetupPhase::FetchingMain, SetupEvent::Completed(Err(_))) => {
                self.phase = SetupPhase::FetchingBackup;
                SetupEffect::Download {
                    url: String::from_str(ARIA2_BACKUP_URL),
                    to: self.zip_path(),
                }
            },
            (SetupPhase::FetchingBackup, SetupEvent::Completed(Ok(_))) => {
                self.phase = SetupPhase::Extracting;
                SetupEffect::Extract { archive: self.zip_path(), into: self.target_dir.clone() }
            },
            (SetupPhase::FetchingBackup, SetupEvent::Completed(Err(reason))) => {
                let last = Aria2Error::DownloadError(reason).message();
                self.fail("所有下载链接均失败: ", last.as_str())
            },
            (SetupPhase::Extracting, SetupEvent::Completed(Ok(_))) => {
                self.phase = SetupPhase::RemovingArchive;
                SetupEffect::RemoveFile(self.zip_path())
            },
            (SetupPhase::Extracting, SetupEvent::Completed(Err(reason))) => {
                self.phase = SetupPhase::Done;
                SetupEffect::Finished(Err(Aria2Error::DownloadError(reason)))
            },
            (SetupPhase::RemovingArchive, SetupEvent::Completed(_)) => {
                self.phase = SetupPhase::ConfirmingBinary;
                SetupEffect::CheckFile(self.exe_path())
            },
            (SetupPhase::ConfirmingBinary, SetupEvent::Exists(true)) => {
                self.phase = SetupPhase::Done;
                SetupEffect::Finished(Ok(self.exe_path()))
            },
            (SetupPhase::ConfirmingBinary, SetupEvent::Exists(false)) => {
                self.phase = SetupPhase::Done;
                SetupEffect::Finished(
                    Err(Aria2Error::DownloadError(String::from_str("解压后未找到 aria2c.exe"))),
                )
            },
            _ => {
                self.phase = SetupPhase::Done;
                SetupEffect::Finished(
                    Err(
                        Aria2Error::DownloadError(
                            String::from_str("event does not answer the step under way"),
                        ),
                    ),
                )
            },
        }
    }
}

/// Tells what fetching an address into a file came to: the failure of the
/// request, a status of the answer that is no success, the failure to read
/// the body and the failure to write the file each are a download error.
pub fn download_file(
    request_failure: Option<String>,
    bad_status: Option<String>,
    read_failure: Option<String>,
    write_failure: Option<String>,
) -> (outcome: Aria2Result<()>)
    ensures
        unit_result(outcome) == (match (
            text_of(request_failure),
            text_of(bad_status),
            text_of(read_failure),
            text_of(write_failure),
        ) {
            (Some(reason), _, _, _) => Err(Aria2ErrorView::DownloadError(reason)),
            (None, Some(status), _, _) => Err(
                Aria2ErrorView::DownloadError("HTTP错误: "@ + status),
            ),
            (None, None, Some(reason), _) => Err(Aria2ErrorView::DownloadError(reason)),
            (None, None, None, Some(reason)) => Err(Aria2ErrorView::DownloadError(reason)),
            (None, None, None, None) => Ok(()),
        }),
{
    match request_failure {
        Some(reason) => Err(Aria2Error::DownloadError(reason)),
        None => match bad_status {
            Some(status) => Err(Aria2Error::DownloadError(joined("HTTP错误: ", status.as_str()))),
            None => match read_failure {
                Some(reason) => Err(Aria2Error::DownloadError(reason)),
                None => match write_failure {
                    Some(reason) => Err(Aria2Error::DownloadError(reason)),
                    None => Ok(()),
                },
            },
        },
    }
}

} // verus!
