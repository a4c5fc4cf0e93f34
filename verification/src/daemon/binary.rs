//! Getting the worker binary: from which addresses it is fetched, and how
//! it is found in the archive that comes.

use crate::error::{Aria2Error, Aria2ErrorView};
use crate::text::{chars_of, joined, split, split_chars};
use vstd::prelude::*;
use vstd::string::StringExecFns;

verus! {

/// An in-memory reader of `std::io`, carried as it came.
#[verifier::external_type_specification]
#[verifier::external_body]
#[verifier::reject_recursive_types(T)]
pub struct ExCursor<T>(std::io::Cursor<T>);

/// A ZIP archive of the crate `zip`, opened for reading.
#[verifier::external_type_specification]
#[verifier::external_body]
#[verifier::reject_recursive_types(R)]
pub struct ExZipArchive<R>(zip::ZipArchive<R>);

/// What an archive holds, entry by entry in the order of its central
/// directory: the name of the entry, and what comes of taking it out
/// without a password. That is the text of the error where the entry cannot
/// be looked up, because it asks for a password, is compressed in an
/// unknown way or is damaged; else the text of the error where it cannot be
/// read to its end; else its bytes.
pub uninterp spec fn archive_entries(archive: zip::ZipArchive<std::io::Cursor<Vec<u8>>>) -> Seq<
    (Seq<char>, Result<Result<Seq<u8>, Seq<char>>, Seq<char>>),
>;

/// What comes of opening a sequence of bytes as a ZIP archive: the entries
/// of the archive, or the text of the error for bytes that are none.
pub uninterp spec fn zip_opening(data: Seq<u8>) -> Result<
    Seq<(Seq<char>, Result<Result<Seq<u8>, Seq<char>>, Seq<char>>)>,
    Seq<char>,
>;

/// What comes of taking an entry out of an archive.
pub type Yield = Result<Result<Seq<u8>, Seq<char>>, Seq<char>>;

/// An entry of an archive: its name, and what comes of taking it out.
pub type ArchiveEntry = (Seq<char>, Yield);

/// What looking an entry up gives: its name, or the text of the error.
pub open spec fn looked_up(entry: ArchiveEntry) -> Result<Seq<char>, Seq<char>> {
    match entry.1 {
        Ok(_) => Ok(entry.0),
        Err(reason) => Err(reason),
    }
}

/// What looking an entry up and reading it to its end gives: its bytes, or
/// the text of the error of whichever of the two failed.
pub open spec fn read_out(entry: ArchiveEntry) -> Result<Seq<u8>, Seq<char>> {
    match entry.1 {
        Ok(read) => read,
        Err(reason) => Err(reason),
    }
}

/// The view of a text or the text of an error.
pub open spec fn text_or_reason(outcome: Result<String, String>) -> Result<Seq<char>, Seq<char>> {
    match outcome {
        Ok(text) => Ok(text@),
        Err(reason) => Err(reason@),
    }
}

/// The view of bytes or the text of an error.
pub open spec fn bytes_or_reason(outcome: Result<Vec<u8>, String>) -> Result<Seq<u8>, Seq<char>> {
    match outcome {
        Ok(bytes) => Ok(bytes@),
        Err(reason) => Err(reason@),
    }
}

/// What an opened archive holds, or the text of the error.
pub open spec fn opening_of(
    opened: Result<zip::ZipArchive<std::io::Cursor<Vec<u8>>>, String>,
) -> Result<Seq<ArchiveEntry>, Seq<char>> {
    match opened {
        Ok(archive) => Ok(archive_entries(archive)),
        Err(reason) => Err(reason@),
    }
}

/// Opens `data` as a ZIP archive with `zip::ZipArchive::new` on a cursor
/// over the bytes. What comes of it depends on the bytes alone: the
/// archive with its entries, or the text of the error for bytes that are no
/// archive.
#[verifier::external_body]
pub(crate) fn open_archive(data: Vec<u8>) -> (opened: Result<
    zip::ZipArchive<std::io::Cursor<Vec<u8>>>,
    String,
>)
    ensures
        opening_of(opened) == zip_opening(data@),
{
    match zip::ZipArchive::new(std::io::Cursor::new(data)) {
        Ok(archive) => Ok(archive),
        Err(error) => Err(error.to_string()),
    }
}

/// Asks `zip::ZipArchive::len` for the number of entries.
#[verifier::external_body]
pub(crate) fn archive_len(archive: &zip::ZipArchive<std::io::Cursor<Vec<u8>>>) -> (len: usize)
    ensures
        len == archive_entries(*archive).len(),
{
    archive.len()
}

/// Looks entry `index` up with `zip::ZipArchive::by_index_decrypt`, giving
/// the empty password, and copies the name of the entry. Looking an entry
/// up moves the reader and leaves the entries as they are. An entry that
/// can be looked up has the name that the directory gives it. One that
/// cannot gives the text of the error, be it that the archive cannot be
/// read there or that the password is refused, and so does an index past
/// the last entry.
#[verifier::external_body]
pub(crate) fn entry_name(archive: &mut zip::ZipArchive<std::io::Cursor<Vec<u8>>>, index: usize) -> (name:
    Result<String, String>)
    ensures
        archive_entries(*final(archive)) == archive_entries(*old(archive)),
        index < archive_entries(*old(archive)).len() ==> text_or_reason(name) == looked_up(
            archive_entries(*old(archive))[index as int],
        ),
        index >= archive_entries(*old(archive)).len() ==> name is Err,
{
    match archive.by_index_decrypt(index, &[]) {
        Ok(Ok(file)) => Ok(file.name().to_string()),
        Ok(Err(refusal)) => Err(refusal.to_string()),
        Err(error) => Err(error.to_string()),
    }
}

/// Looks entry `index` up with `zip::ZipArchive::by_index_decrypt`, giving
/// the empty password, and reads the entry to its end. That leaves the
/// entries as they are. An entry that can be looked up and read gives its
/// bytes; one that cannot gives the text of the error, and so does an
/// index past the last entry.
#[verifier::external_body]
pub(crate) fn entry_bytes(archive: &mut zip::ZipArchive<std::io::Cursor<Vec<u8>>>, index: usize) -> (bytes:
    Result<Vec<u8>, String>)
    ensures
        archive_entries(*final(archive)) == archive_entries(*old(archive)),
        index < archive_entries(*old(archive)).len() ==> bytes_or_reason(bytes) == read_out(
            archive_entries(*old(archive))[index as int],
        ),
        index >= archive_entries(*old(archive)).len() ==> bytes is Err,
{
    match archive.by_index_decrypt(index, &[]) {
        Ok(Ok(mut file)) => {
            let mut bytes = Vec::new();
            match std::io::Read::read_to_end(&mut file, &mut bytes) {
                Ok(_) => Ok(bytes),
                Err(error) => Err(error.to_string()),
            }
        },
        Ok(Err(refusal)) => Err(refusal.to_string()),
        Err(error) => Err(error.to_string()),
    }
}

/// Where the worker binary is fetched from first.
pub const GITHUB_DOWNLOAD_URL: &'static str =
    "https://github.com/aria2/aria2/releases/download/release-1.37.0/aria2-1.37.0-win-64bit-build1.zip";

/// Where the worker binary is fetched from when the first address fails.
pub const GITEE_DOWNLOAD_URL: &'static str =
    "https://gitee.com/burncloud/aria2/raw/master/aria2-1.37.0-win-64bit-build1.zip";

/// The file name in the name of an archive entry: what follows the last
/// slash.
pub open spec fn file_name_of(entry: Seq<char>) -> Seq<char> {
    split(entry, '/').last()
}

/// Where the search for the binary among `entries` stops, going through
/// them in order: at the first entry that cannot be looked up, with the
/// text of its error, or at the first whose file name is `binary_name`,
/// with its place. The search that stops nowhere has gone through them all.
pub open spec fn search(entries: Seq<ArchiveEntry>, binary_name: Seq<char>) -> Option<
    Result<int, Seq<char>>,
>
    decreases entries.len(),
{
    if entries.len() == 0 {
        None
    } else {
        match search(entries.drop_last(), binary_name) {
            Some(stop) => Some(stop),
            None => match looked_up(entries.last()) {
                Err(reason) => Some(Err(reason)),
                Ok(name) => if file_name_of(name) == binary_name {
                    Some(Ok(entries.len() - 1))
                } else {
                    None
                },
            },
        }
    }
}

/// A search that has stopped among the first entries has stopped there
/// among all.
pub proof fn lemma_search_stays(entries: Seq<ArchiveEntry>, binary_name: Seq<char>, seen: int)
    requires
        0 <= seen <= entries.len(),
        search(entries.take(seen), binary_name) is Some,
    ensures
        search(entries, binary_name) == search(entries.take(seen), binary_name),
    decreases entries.len() - seen,
{
    if seen < entries.len() {
        assert(entries.take(seen + 1).drop_last() =~= entries.take(seen));
        lemma_search_stays(entries, binary_name, seen + 1);
    } else {
        assert(entries.take(seen) =~= entries);
    }
}

/// The place where a search finds the binary is a place in the archive, at
/// an entry that can be looked up and has the file name, and no entry
/// before it stops the search.
pub proof fn lemma_search_finds(entries: Seq<ArchiveEntry>, binary_name: Seq<char>)
    ensures
        search(entries, binary_name) matches Some(Ok(index)) ==> {
            &&& 0 <= index < entries.len()
            &&& looked_up(entries[index]) matches Ok(name) && file_name_of(name) == binary_name
            &&& search(entries.take(index), binary_name) is None
        },
    decreases entries.len(),
{
    if entries.len() > 0 {
        let before = entries.drop_last();
        lemma_search_finds(before, binary_name);
        match search(before, binary_name) {
            Some(Ok(index)) => {
                assert(before[index] == entries[index]);
                assert(before.take(index) =~= entries.take(index));
            },
            Some(Err(_)) => {},
            None => {
                assert(entries.take(entries.len() - 1) =~= before);
            },
        }
    }
}

/// The error that says the archive does not hold the binary.
pub open spec fn binary_missing(binary_name: Seq<char>) -> Aria2ErrorView {
    Aria2ErrorView::BinaryExtractionFailed("Binary '"@ + binary_name + "' not found in archive"@)
}

/// The place of the worker binary among `entries`: where the search stops
/// at it. A search that stops at an entry that cannot be looked up fails
/// with the text of that error, and one that stops nowhere fails because
/// the binary is missing.
pub open spec fn location_of(entries: Seq<ArchiveEntry>, binary_name: Seq<char>) -> Result<
    int,
    Aria2ErrorView,
> {
    match search(entries, binary_name) {
        Some(Ok(index)) => Ok(index),
        Some(Err(reason)) => Err(
            Aria2ErrorView::BinaryExtractionFailed("Failed to read zip entry: "@ + reason),
        ),
        None => Err(binary_missing(binary_name)),
    }
}

/// The worker binary among `entries`: the bytes of the entry at its place.
/// The failure to find the place is handed on, and an entry that cannot be
/// read to its end fails with the text of that error.
pub open spec fn binary_of(entries: Seq<ArchiveEntry>, binary_name: Seq<char>) -> Result<
    Seq<u8>,
    Aria2ErrorView,
> {
    match location_of(entries, binary_name) {
        Err(error) => Err(error),
        Ok(index) => match read_out(entries[index]) {
            Ok(bytes) => Ok(bytes),
            Err(reason) => Err(
                Aria2ErrorView::BinaryExtractionFailed("Failed to extract binary: "@ + reason),
            ),
        },
    }
}

/// The worker binary in what came of opening an archive: bytes that are no
/// archive fail with the text of that error; else the binary is the one
/// among the entries.
pub open spec fn extraction_of(opening: Result<Seq<ArchiveEntry>, Seq<char>>, binary_name: Seq<char>) -> Result<
    Seq<u8>,
    Aria2ErrorView,
> {
    match opening {
        Err(reason) => Err(
            Aria2ErrorView::BinaryExtractionFailed("Failed to open zip: "@ + reason),
        ),
        Ok(entries) => binary_of(entries, binary_name),
    }
}

/// The view of a result that carries a place.
pub open spec fn place_result(outcome: Result<usize, Aria2Error>) -> Result<int, Aria2ErrorView> {
    match outcome {
        Ok(index) => Ok(index as int),
        Err(error) => Err(error@),
    }
}

fn has_file_name(entry: &str, binary_name: &str) -> (yes: bool)
    ensures
        yes == (file_name_of(entry@) == binary_name@),
{
    let chars = chars_of(entry);
    let pieces = split_chars(&chars, '/');
    let last = &pieces[pieces.len() - 1];
    let wanted = chars_of(binary_name);
    proof {
        assert(pieces@.map_values(|piece: Vec<char>| piece@).last() == last@);
        assert(last@ == file_name_of(entry@));
    }
    if last.len() != wanted.len() {
        return false;
    }
    let mut i: usize = 0;
    while i < last.len()
        invariant
            i <= last.len(),
            last.len() == wanted.len(),
            last@ == file_name_of(entry@),
            wanted@ == binary_name@,
            forall|j: int| 0 <= j < i ==> last@[j] == wanted@[j],
        decreases last.len() - i,
    {
        if last[i] != wanted[i] {
            return false;
        }
        i += 1;
    }
    assert(last@ =~= wanted@);
    true
}

/// Looks through the entries of `archive`, in order, for the worker
/// binary. The entry that is returned is the first whose file name is
/// `binary_name`. The search fails where an entry before it cannot be
/// looked up, and where no entry has the name.
pub fn locate_binary(archive: &mut zip::ZipArchive<std::io::Cursor<Vec<u8>>>, binary_name: &str) -> (found:
    Result<usize, Aria2Error>)
    ensures
        archive_entries(*final(archive)) == archive_entries(*old(archive)),
        place_result(found) == location_of(archive_entries(*old(archive)), binary_name@),
{
    let ghost entries = archive_entries(*archive);
    let len = archive_len(archive);
    let mut i: usize = 0;
    while i < len
        invariant
            i <= len,
            len == entries.len(),
            entries == archive_entries(*old(archive)),
            archive_entries(*archive) == entries,
            search(entries.take(i as int), binary_name@) is None,
        decreases len - i,
    {
        proof {
            assert(entries.take(i + 1).drop_last() =~= entries.take(i as int));
            assert(entries.take(i + 1).last() == entries[i as int]);
        }
        match entry_name(archive, i) {
            Ok(name) => {
                if has_file_name(name.as_str(), binary_name) {
                    proof {
                        lemma_search_stays(entries, binary_name@, i + 1);
                    }
                    return Ok(i);
                }
            },
            Err(reason) => {
                proof {
                    lemma_search_stays(entries, binary_name@, i + 1);
                }
                return Err(
                    Aria2Error::BinaryExtractionFailed(
                        joined("Failed to read zip entry: ", reason.as_str()),
                    ),
                );
            },
        }
        i += 1;
    }
    assert(entries.take(entries.len() as int) =~= entries);
    let mut text = String::from_str("Binary '");
    text.append(binary_name);
    text.append("' not found in archive");
    Err(Aria2Error::BinaryExtractionFailed(text))
}

/// Takes the worker binary out of `archive`: the entry is looked for and
/// read to its end.
pub fn extract_from(archive: &mut zip::ZipArchive<std::io::Cursor<Vec<u8>>>, binary_name: &str) -> (binary:
    Result<Vec<u8>, Aria2Error>)
    ensures
        archive_entries(*final(archive)) == archive_entries(*old(archive)),
        bytes_result(binary) == binary_of(archive_entries(*old(archive)), binary_name@),
{
    match locate_binary(archive, binary_name) {
        Err(error) => Err(error),
        Ok(index) => {
            proof {
                lemma_search_finds(archive_entries(*archive), binary_name@);
            }
            match entry_bytes(archive, index) {
                Ok(bytes) => Ok(bytes),
                Err(reason) => Err(
                    Aria2Error::BinaryExtractionFailed(
                        joined("Failed to extract binary: ", reason.as_str()),
                    ),
                ),
            }
        },
    }
}

/// Takes the worker binary out of the archive `zip_data`: the bytes are
/// opened as an archive, and the binary is taken from its entries. Every
/// failure is an extraction failure that names the step.
pub fn extract_zip(zip_data: Vec<u8>, binary_name: &str) -> (binary: Result<Vec<u8>, Aria2Error>)
    ensures
        bytes_result(binary) == extraction_of(zip_opening(zip_data@), binary_name@),
{
    match open_archive(zip_data) {
        Err(reason) => Err(
            Aria2Error::BinaryExtractionFailed(joined("Failed to open zip: ", reason.as_str())),
        ),
        Ok(archive) => {
            let mut archive = archive;
            extract_from(&mut archive, binary_name)
        },
    }
}

/// What came of fetching an address.
#[derive(Debug, PartialEq, Eq)]
pub enum FetchOutcome {
    /// The body of the answer.
    Body(Vec<u8>),
    /// The request could not be made; the text says why.
    RequestFailed(String),
    /// The server answered with a status that is no success; the text
    /// names it.
    HttpError(String),
    /// The body could not be read; the text says why.
    ReadFailed(String),
}

/// A [`FetchOutcome`] with its texts as sequences of characters.
pub enum FetchOutcomeView {
    Body(Seq<u8>),
    RequestFailed(Seq<char>),
    HttpError(Seq<char>),
    ReadFailed(Seq<char>),
}

impl View for FetchOutcome {
    type V = FetchOutcomeView;

    open spec fn view(&self) -> FetchOutcomeView {
        match *self {
            FetchOutcome::Body(bytes) => FetchOutcomeView::Body(bytes@),
            FetchOutcome::RequestFailed(reason) => FetchOutcomeView::RequestFailed(reason@),
            FetchOutcome::HttpError(status) => FetchOutcomeView::HttpError(status@),
            FetchOutcome::ReadFailed(reason) => FetchOutcomeView::ReadFailed(reason@),
        }
    }
}

/// What a fetch means: the body, or a download failure that names the
/// step that failed.
pub open spec fn download_of(outcome: FetchOutcomeView) -> Result<Seq<u8>, Aria2ErrorView> {
    match outcome {
        FetchOutcomeView::Body(bytes) => Ok(bytes),
        FetchOutcomeView::RequestFailed(reason) => Err(
            Aria2ErrorView::BinaryDownloadFailed("Request failed: "@ + reason),
        ),
        FetchOutcomeView::HttpError(status) => Err(
            Aria2ErrorView::BinaryDownloadFailed("HTTP error: "@ + status),
        ),
        FetchOutcomeView::ReadFailed(reason) => Err(
            Aria2ErrorView::BinaryDownloadFailed("Failed to read response: "@ + reason),
        ),
    }
}

/// The view of a result that carries bytes.
pub open spec fn bytes_result(outcome: Result<Vec<u8>, Aria2Error>) -> Result<
    Seq<u8>,
    Aria2ErrorView,
> {
    match outcome {
        Ok(bytes) => Ok(bytes@),
        Err(error) => Err(error@),
    }
}

/// Tells what a fetch means.
pub fn download_from_url(outcome: FetchOutcome) -> (data: Result<Vec<u8>, Aria2Error>)
    ensures
        bytes_result(data) == download_of(outcome@),
{
    match outcome {
        FetchOutcome::Body(bytes) => Ok(bytes),
        FetchOutcome::RequestFailed(reason) => Err(
            Aria2Error::BinaryDownloadFailed(joined("Request failed: ", reason.as_str())),
        ),
        FetchOutcome::HttpError(status) => Err(
            Aria2Error::BinaryDownloadFailed(joined("HTTP error: ", status.as_str())),
        ),
        FetchOutcome::ReadFailed(reason) => Err(
            Aria2Error::BinaryDownloadFailed(joined("Failed to read response: ", reason.as_str())),
        ),
    }
}

/// What came of writing the binary to its place.
#[derive(Debug, PartialEq, Eq)]
pub enum WriteOutcome {
    /// The file is written.
    Written,
    /// The file could not be created; the text says why.
    CreateFailed(String),
    /// The bytes could not be written; the text says why.
    CopyFailed(String),
}

/// A [`WriteOutcome`] with its texts as sequences of characters.
pub enum WriteOutcomeView {
    Written,
    CreateFailed(Seq<char>),
    CopyFailed(Seq<char>),
}

impl View for WriteOutcome {
    type V = WriteOutcomeView;

    open spec fn view(&self) -> WriteOutcomeView {
        match *self {
            WriteOutcome::Written => WriteOutcomeView::Written,
            WriteOutcome::CreateFailed(reason) => WriteOutcomeView::CreateFailed(reason@),
            WriteOutcome::CopyFailed(reason) => WriteOutcomeView::CopyFailed(reason@),
        }
    }
}

/// The step of getting the binary that the host has been asked to
/// perform.
#[derive(Debug, Clone, Copy, PartialEq, Eq)]
pub enum AcquirePhase {
    /// The directory of the binary is being created.
    EnsuringDirectory,
    /// The archive is being fetched from the first address.
    FetchingPrimary,
    /// The archive is being fetched from the second address.
    FetchingFallback,
    /// The binary is being written to its place.
    Writing,
    /// The binary is being made executable.
    MarkingExecutable,
    /// Nothing is under way.
    Done,
}

/// What the download asks its host to do.
#[derive(Debug, PartialEq, Eq)]
pub enum AcquireEffect {
    /// Create the directory that holds the file, where the path names one;
    /// report with [`AcquireEvent::Directory`].
    EnsureParentDirectory(String),
    /// Fetch the address; report with [`AcquireEvent::Fetched`].
    Fetch(String),
    /// Write the bytes to the file; report with [`AcquireEvent::Written`].
    WriteFile { path: String, bytes: Vec<u8> },
    /// Make the file executable, where the platform knows of that; report
    /// with [`AcquireEvent::Marked`].
    SetExecutable(String),
    /// The download is over, with this result.
    Finished(Result<(), Aria2Error>),
}

/// An [`AcquireEffect`] with its texts as sequences of characters.
pub enum AcquireEffectView {
    EnsureParentDirectory(Seq<char>),
    Fetch(Seq<char>),
    WriteFile { path: Seq<char>, bytes: Seq<u8> },
    SetExecutable(Seq<char>),
    Finished(Result<(), Aria2ErrorView>),
}

impl View for AcquireEffect {
    type V = AcquireEffectView;

    open spec fn view(&self) -> AcquireEffectView {
        match *self {
            AcquireEffect::EnsureParentDirectory(path) => AcquireEffectView::EnsureParentDirectory(
                path@,
            ),
            AcquireEffect::Fetch(url) => AcquireEffectView::Fetch(url@),
            AcquireEffect::WriteFile { path, bytes } => AcquireEffectView::WriteFile {
                path: path@,
                bytes: bytes@,
            },
            AcquireEffect::SetExecutable(path) => AcquireEffectView::SetExecutable(path@),
            AcquireEffect::Finished(result) => AcquireEffectView::Finished(
                crate::error::outcome_view(result),
            ),
        }
    }
}

/// What the host reports of the effect it was asked for.
#[derive(Debug, PartialEq, Eq)]
pub enum AcquireEvent {
    /// The directory exists now, or the text says why it could not be made.
    Directory(Result<(), String>),
    /// What came of the fetch.
    Fetched(FetchOutcome),
    /// What came of writing the file.
    Written(WriteOutcome),
    /// The file is executable now, or the text says why it is not.
    Marked(Result<(), String>),
}

/// An [`AcquireEvent`] with its texts as sequences of characters.
pub enum AcquireEventView {
    Directory(Result<(), Seq<char>>),
    Fetched(FetchOutcomeView),
    Written(WriteOutcomeView),
    Marked(Result<(), Seq<char>>),
}

impl View for AcquireEvent {
    type V = AcquireEventView;

    open spec fn view(&self) -> AcquireEventView {
        match *self {
            AcquireEvent::Directory(Ok(_)) => AcquireEventView::Directory(Ok(())),
            AcquireEvent::Directory(Err(reason)) => AcquireEventView::Directory(Err(reason@)),
            AcquireEvent::Fetched(outcome) => AcquireEventView::Fetched(outcome@),
            AcquireEvent::Written(outcome) => AcquireEventView::Written(outcome@),
            AcquireEvent::Marked(Ok(_)) => AcquireEventView::Marked(Ok(())),
            AcquireEvent::Marked(Err(reason)) => AcquireEventView::Marked(Err(reason@)),
        }
    }
}

/// The state of a download of the worker binary.
pub struct BinaryDownloadView {
    /// The step under way.
    pub phase: AcquirePhase,
    /// Where the binary is to be.
    pub target_path: Seq<char>,
    /// The file name of the binary in the archive.
    pub binary_name: Seq<char>,
}

impl BinaryDownloadView {
    /// The download in another phase.
    pub open spec fn in_phase(self, phase: AcquirePhase) -> Self {
        BinaryDownloadView { phase, ..self }
    }

    /// The download over, with the given result.
    pub open spec fn over(self, result: Result<(), Aria2ErrorView>) -> (Self, AcquireEffectView) {
        (self.in_phase(AcquirePhase::Done), AcquireEffectView::Finished(result))
    }

    /// What follows once the archive has been fetched: the binary is
    /// taken out of it and is to be written to its place, or the download
    /// ends with the failure to take it out.
    pub open spec fn unpacked(self, archive: Seq<u8>) -> (Self, AcquireEffectView) {
        match extraction_of(zip_opening(archive), self.binary_name) {
            Ok(bytes) => (
                self.in_phase(AcquirePhase::Writing),
                AcquireEffectView::WriteFile { path: self.target_path, bytes },
            ),
            Err(error) => self.over(Err(error)),
        }
    }
}

/// The error that says both addresses failed; it holds the text of the
/// failure of the second.
pub open spec fn all_sources_failed(last: Aria2ErrorView) -> Aria2ErrorView {
    Aria2ErrorView::BinaryDownloadFailed("All sources failed. Last error: "@ + last.message())
}

/// The download begins with the directory of the binary.
pub open spec fn acquisition_begins(target_path: Seq<char>, binary_name: Seq<char>) -> (
    BinaryDownloadView,
    AcquireEffectView,
) {
    (
        BinaryDownloadView { phase: AcquirePhase::EnsuringDirectory, target_path, binary_name },
        AcquireEffectView::EnsureParentDirectory(target_path),
    )
}

/// What follows when the host reports `event` in state `pre`.
///
/// Once the directory is there the archive is fetched from the first
/// address, and from the second if that fails; if both fail the download
/// has failed. The binary is taken from the archive, written to its place
/// and made executable. Each failure ends the download with its error. An
/// event that answers nothing the download waits for ends it with an
/// error.
pub open spec fn acquisition_applies(pre: BinaryDownloadView, event: AcquireEventView) -> (
    BinaryDownloadView,
    AcquireEffectView,
) {
    match (pre.phase, event) {
        (AcquirePhase::EnsuringDirectory, AcquireEventView::Directory(Ok(_))) => (
            pre.in_phase(AcquirePhase::FetchingPrimary),
            AcquireEffectView::Fetch(GITHUB_DOWNLOAD_URL@),
        ),
        (AcquirePhase::EnsuringDirectory, AcquireEventView::Directory(Err(reason))) => pre.over(
            Err(Aria2ErrorView::IoError(reason)),
        ),
        (AcquirePhase::FetchingPrimary, AcquireEventView::Fetched(outcome)) => match download_of(
            outcome,
        ) {
            Ok(archive) => pre.unpacked(archive),
            Err(_) => (
                pre.in_phase(AcquirePhase::FetchingFallback),
                AcquireEffectView::Fetch(GITEE_DOWNLOAD_URL@),
            ),
        },
        (AcquirePhase::FetchingFallback, AcquireEventView::Fetched(outcome)) => match download_of(
            outcome,
        ) {
            Ok(archive) => pre.unpacked(archive),
            Err(error) => pre.over(Err(all_sources_failed(error))),
        },
        (AcquirePhase::Writing, AcquireEventView::Written(WriteOutcomeView::Written)) => (
            pre.in_phase(AcquirePhase::MarkingExecutable),
            AcquireEffectView::SetExecutable(pre.target_path),
        ),
        (AcquirePhase::Writing, AcquireEventView::Written(WriteOutcomeView::CreateFailed(reason))) => {
            pre.over(
                Err(
                    Aria2ErrorView::BinaryExtractionFailed(
                        "Failed to create output file: "@ + reason,
                    ),
                ),
            )
        },
        (AcquirePhase::Writing, AcquireEventView::Written(WriteOutcomeView::CopyFailed(reason))) => {
            pre.over(
                Err(
                    Aria2ErrorView::BinaryExtractionFailed("Failed to extract binary: "@ + reason),
                ),
            )
        },
        (AcquirePhase::MarkingExecutable, AcquireEventView::Marked(Ok(_))) => pre.over(Ok(())),
        (AcquirePhase::MarkingExecutable, AcquireEventView::Marked(Err(reason))) => pre.over(
            Err(Aria2ErrorView::IoError(reason)),
        ),
        _ => pre.over(
            Err(Aria2ErrorView::General("event does not answer the step under way"@)),
        ),
    }
}

/// A download of the worker binary.
#[derive(Debug, PartialEq, Eq)]
pub struct BinaryDownload {
    phase: AcquirePhase,
    target_path: String,
    binary_name: String,
}

impl View for BinaryDownload {
    type V = BinaryDownloadView;

    closed spec fn view(&self) -> BinaryDownloadView {
        BinaryDownloadView {
            phase: self.phase,
            target_path: self.target_path@,
            binary_name: self.binary_name@,
        }
    }
}

/// Begins to get the worker binary, which the archive holds under the file
/// name `binary_name`, to `target_path`, and says what the host does
/// first.
pub fn download_aria2_binary(target_path: String, binary_name: String) -> (begun: (
    BinaryDownload,
    AcquireEffect,
))
    ensures
        (begun.0@, begun.1@) == acquisition_begins(target_path@, binary_name@),
{
    let effect = AcquireEffect::EnsureParentDirectory(target_path.clone());
    (BinaryDownload { phase: AcquirePhase::EnsuringDirectory, target_path, binary_name }, effect)
}

impl BinaryDownload {
    fn finish(&mut self, result: Result<(), Aria2Error>) -> (effect: AcquireEffect)
        ensures
            (final(self)@, effect@) == old(self)@.over(crate::error::outcome_view(result)),
    {
        self.phase = AcquirePhase::Done;
        AcquireEffect::Finished(result)
    }

    fn unpack(&mut self, archive: Vec<u8>) -> (effect: AcquireEffect)
        ensures
            (final(self)@, effect@) == old(self)@.unpacked(archive@),
    {
        match extract_zip(archive, self.binary_name.as_str()) {
            Ok(bytes) => {
                self.phase = AcquirePhase::Writing;
                AcquireEffect::WriteFile { path: self.target_path.clone(), bytes }
            },
            Err(error) => self.finish(Err(error)),
        }
    }

    /// Takes what the host reports and says what it does next. A fetched
    /// archive is opened here and the binary is taken out of it.
    pub fn resume(&mut self, event: AcquireEvent) -> (effect: AcquireEffect)
        ensures
            (final(self)@, effect@) == acquisition_applies(old(self)@, event@),
    {
        match (self.phase, event) {
            (AcquirePhase::EnsuringDirectory, AcquireEvent::Directory(Ok(_))) => {
                self.phase = AcquirePhase::FetchingPrimary;
                AcquireEffect::Fetch(String::from_str(GITHUB_DOWNLOAD_URL))
            },
            (AcquirePhase::EnsuringDirectory, AcquireEvent::Directory(Err(reason))) => {
                self.finish(Err(Aria2Error::IoError(reason)))
            },
            (AcquirePhase::FetchingPrimary, AcquireEvent::Fetched(outcome)) => {
                match download_from_url(outcome) {
                    Ok(archive) => self.unpack(archive),
                    Err(_) => {
                        self.phase = AcquirePhase::FetchingFallback;
                        AcquireEffect::Fetch(String::from_str(GITEE_DOWNLOAD_URL))
                    },
                }
            },
            (AcquirePhase::FetchingFallback, AcquireEvent::Fetched(outcome)) => {
                match download_from_url(outcome) {
                    Ok(archive) => self.unpack(archive),
                    Err(error) => {
                        let last = error.message();
                        self.finish(
                            Err(
                                Aria2Error::BinaryDownloadFailed(
                                    joined("All sources failed. Last error: ", last.as_str()),
                                ),
                            ),
                        )
                    },
                }
            },
            (AcquirePhase::Writing, AcquireEvent::Written(WriteOutcome::Written)) => {
                self.phase = AcquirePhase::MarkingExecutable;
                AcquireEffect::SetExecutable(self.target_path.clone())
            },
            (AcquirePhase::Writing, AcquireEvent::Written(WriteOutcome::CreateFailed(reason))) => {
                self.finish(
                    Err(
                        Aria2Error::BinaryExtractionFailed(
                            joined("Failed to create output file: ", reason.as_str()),
                        ),
                    ),
                )
            },
            (AcquirePhase::Writing, AcquireEvent::Written(WriteOutcome::CopyFailed(reason))) => {
                self.finish(
                    Err(
                        Aria2Error::BinaryExtractionFailed(
                            joined("Failed to extract binary: ", reason.as_str()),
                        ),
                    ),
                )
            },
            (AcquirePhase::MarkingExecutable, AcquireEvent::Marked(Ok(_))) => self.finish(Ok(())),
            (AcquirePhase::MarkingExecutable, AcquireEvent::Marked(Err(reason))) => {
                self.finish(Err(Aria2Error::IoError(reason)))
            },
            _ => self.finish(
                Err(
                    Aria2Error::General(String::from_str("event does not answer the step under way")),
                ),
            ),
        }
    }
}

} // verus!
