//! What travels between the host and the worker's control endpoint, and
//! what the worker reports of a job.

use crate::simple::{DownloadOptions, DownloadOptionsView};
use crate::text::{clone_text, text_of, views};
use vstd::prelude::*;
use vstd::string::StringExecFns;

verus! {

/// A JSON value of `serde_json`, carried as it came.
#[verifier::external_type_specification]
#[verifier::external_body]
pub struct ExJsonValue(serde_json::Value);

/// Options of a download that the worker is asked for.
#[derive(Debug, PartialEq, Eq)]
pub struct Aria2Options {
    /// Directory to download into.
    pub dir: String,
    /// File name to download to; the worker chooses where none is given.
    pub out: Option<String>,
}

/// [`Aria2Options`] with its texts as sequences of characters.
pub struct Aria2OptionsView {
    pub dir: Seq<char>,
    pub out: Option<Seq<char>>,
}

impl View for Aria2Options {
    type V = Aria2OptionsView;

    open spec fn view(&self) -> Aria2OptionsView {
        Aria2OptionsView { dir: self.dir@, out: text_of(self.out) }
    }
}

impl Clone for Aria2Options {
    fn clone(&self) -> (copy: Self)
        ensures
            copy@ == self@,
    {
        Aria2Options {
            dir: self.dir.clone(),
            out: clone_text(&self.out),
        }
    }
}

/// One positional parameter of a call.
#[derive(Debug, PartialEq, Eq)]
pub enum RpcParam {
    /// A string.
    Text(String),
    /// A list of strings.
    TextList(Vec<String>),
    /// An integer.
    Integer(i64),
    /// The options of a download.
    Options(Aria2Options),
    /// The options of a download, in full.
    Settings(DownloadOptions),
}

/// An [`RpcParam`] with its texts as sequences of characters.
pub enum RpcParamView {
    Text(Seq<char>),
    TextList(Seq<Seq<char>>),
    Integer(i64),
    Options(Aria2OptionsView),
    Settings(DownloadOptionsView),
}

impl View for RpcParam {
    type V = RpcParamView;

    open spec fn view(&self) -> RpcParamView {
        match *self {
            RpcParam::Text(text) => RpcParamView::Text(text@),
            RpcParam::TextList(texts) => RpcParamView::TextList(views(texts@)),
            RpcParam::Integer(number) => RpcParamView::Integer(number),
            RpcParam::Options(options) => RpcParamView::Options(options@),
            RpcParam::Settings(options) => RpcParamView::Settings(options@),
        }
    }
}

/// The views of a list of parameters.
pub open spec fn param_views(params: Seq<RpcParam>) -> Seq<RpcParamView> {
    params.map_values(|param: RpcParam| param@)
}

/// A call to the control endpoint.
#[derive(Debug, PartialEq, Eq)]
pub struct JsonRpcRequest {
    /// Version of the protocol.
    pub jsonrpc: String,
    /// Identifier by which the answer is matched to the call.
    pub id: String,
    /// Name of the method.
    pub method: String,
    /// Positional parameters.
    pub params: Vec<RpcParam>,
}

/// A [`JsonRpcRequest`] with its texts as sequences of characters.
pub struct JsonRpcRequestView {
    pub jsonrpc: Seq<char>,
    pub id: Seq<char>,
    pub method: Seq<char>,
    pub params: Seq<RpcParamView>,
}

impl View for JsonRpcRequest {
    type V = JsonRpcRequestView;

    open spec fn view(&self) -> JsonRpcRequestView {
        JsonRpcRequestView {
            jsonrpc: self.jsonrpc@,
            id: self.id@,
            method: self.method@,
            params: param_views(self.params@),
        }
    }
}

/// Whether `id` has the shape of a random identifier, as far as it is
/// stated here: thirty-six characters, with a hyphen in the ninth, the
/// fourteenth, the nineteenth and the twenty-fourth place and the version
/// digit 4 in the fifteenth. What stands in the other places is left open.
pub open spec fn is_request_id(id: Seq<char>) -> bool {
    &&& id.len() == 36
    &&& id[8] == '-'
    &&& id[13] == '-'
    &&& id[14] == '4'
    &&& id[18] == '-'
    &&& id[23] == '-'
}

/// Draws a random identifier with `uuid::Uuid::new_v4` and hands it out
/// as a number and as text. The identifier is random; claimed is only the
/// shape of the text: version 4, hyphenated. The call does not return where
/// the operating system gives no random bytes.
#[verifier::external_body]
pub(crate) fn random_id() -> (id: (u128, String))
    ensures
        is_request_id(id.1@),
{
    let id = uuid::Uuid::new_v4();
    (id.as_u128(), id.to_string())
}

impl JsonRpcRequest {
    /// A call of `method` with `params`, under a fresh random identifier.
    pub fn new(method: String, params: Vec<RpcParam>) -> (request: Self)
        ensures
            request@.jsonrpc == "2.0"@,
            is_request_id(request@.id),
            request@.method == method@,
            request@.params == param_views(params@),
    {
        JsonRpcRequest { jsonrpc: String::from_str("2.0"), id: random_id().1, method, params }
    }
}

/// The error object of an answer.
#[derive(Debug, PartialEq, Eq)]
pub struct JsonRpcError {
    /// Number of the error.
    pub code: i32,
    /// What went wrong.
    pub message: String,
}

/// The answer to a call.
#[derive(Debug, PartialEq, Eq)]
pub struct JsonRpcResponse {
    /// Version of the protocol.
    pub jsonrpc: String,
    /// Identifier of the call that is answered.
    pub id: String,
    /// The result, where the call succeeded.
    pub result: Option<serde_json::Value>,
    /// The error, where it failed.
    pub error: Option<JsonRpcError>,
}

/// One file of a job, as the worker reports it. A field is `None` where the
/// report does not hold it as a string.
#[derive(Debug, PartialEq, Eq)]
pub struct FileReport {
    /// Path of the file on disk.
    pub path: Option<String>,
    /// Size of the file in bytes, in decimal.
    pub length: Option<String>,
    /// Bytes of the file that have arrived, in decimal.
    pub completed_length: Option<String>,
    /// The addresses the file is fetched from.
    pub uris: Vec<String>,
}

/// A [`FileReport`] with its texts as sequences of characters.
pub struct FileReportView {
    pub path: Option<Seq<char>>,
    pub length: Option<Seq<char>>,
    pub completed_length: Option<Seq<char>>,
    pub uris: Seq<Seq<char>>,
}

impl View for FileReport {
    type V = FileReportView;

    open spec fn view(&self) -> FileReportView {
        FileReportView {
            path: text_of(self.path),
            length: text_of(self.length),
            completed_length: text_of(self.completed_length),
            uris: views(self.uris@),
        }
    }
}

/// The views of a list of file reports.
pub open spec fn file_views(files: Seq<FileReport>) -> Seq<FileReportView> {
    files.map_values(|file: FileReport| file@)
}

/// A job, as the worker reports it. A field is `None` where the report
/// does not hold it in the expected form.
#[derive(Debug, PartialEq, Eq)]
pub struct StatusReport {
    /// The worker's identifier of the job.
    pub gid: Option<String>,
    /// Size of the job in bytes, in decimal.
    pub total_length: Option<String>,
    /// Bytes of the job that have arrived, in decimal.
    pub completed_length: Option<String>,
    /// Bytes per second at which the job arrives, in decimal.
    pub download_speed: Option<String>,
    /// The files of the job.
    pub files: Option<Vec<FileReport>>,
}

/// A [`StatusReport`] with its texts as sequences of characters.
pub struct StatusReportView {
    pub gid: Option<Seq<char>>,
    pub total_length: Option<Seq<char>>,
    pub completed_length: Option<Seq<char>>,
    pub download_speed: Option<Seq<char>>,
    pub files: Option<Seq<FileReportView>>,
}

impl View for StatusReport {
    type V = StatusReportView;

    open spec fn view(&self) -> StatusReportView {
        StatusReportView {
            gid: text_of(self.gid),
            total_length: text_of(self.total_length),
            completed_length: text_of(self.completed_length),
            download_speed: text_of(self.download_speed),
            files: match self.files {
                Some(files) => Some(file_views(files@)),
                None => None,
            },
        }
    }
}

} // verus!
