//! The calls to the control endpoint of a worker on this machine, and the
//! search for a download that is under way already.

use crate::client::types::{
    param_views, JsonRpcRequest, JsonRpcRequestView, RpcParam, RpcParamView,
};
use crate::client::with_token;
use crate::simple::{
    file_info_views, Aria2Error, Aria2ErrorView, DownloadOptions, FileInfo, FileInfoView,
};
use crate::text::{
    decimal_digits, joined, push_decimal, same_text, starts_with, text_of, to_decimal, views,
};
use vstd::prelude::*;
use vstd::string::StringExecFns;

verus! {

/// The directory that the options ask for, if they ask for one.
pub open spec fn wanted_dir(options: Option<DownloadOptions>) -> Option<Seq<char>> {
    match options {
        Some(options) => text_of(options.dir),
        None => None,
    }
}

/// Whether one of `uris` is among the addresses of `file`.
pub open spec fn fetched_from(file: FileInfoView, uris: Seq<Seq<char>>) -> bool {
    exists|i: int, j: int|
        0 <= i < uris.len() && 0 <= j < file.uris.len() && #[trigger] file.uris[j].uri
            == #[trigger] uris[i]
}

/// Whether the job with the files `files` is a download of one of `uris`
/// to the directory `dir`: one of its files is fetched from one of the
/// addresses and, where a directory is asked for, lies below it.
pub open spec fn same_task(files: Seq<FileInfoView>, uris: Seq<Seq<char>>, dir: Option<Seq<char>>) -> bool {
    exists|k: int|
        0 <= k < files.len() && fetched_from(#[trigger] files[k], uris) && (match dir {
            Some(dir) => dir.is_prefix_of(files[k].path),
            None => true,
        })
}

fn file_fetched_from(file: &FileInfo, uris: &Vec<String>) -> (yes: bool)
    ensures
        yes == fetched_from(file@, views(uris@)),
{
    let mut i: usize = 0;
    while i < uris.len()
        invariant
            i <= uris.len(),
            forall|a: int, b: int|
                0 <= a < i && 0 <= b < file@.uris.len() ==> #[trigger] file@.uris[b].uri
                    != #[trigger] views(uris@)[a],
        decreases uris.len() - i,
    {
        let mut j: usize = 0;
        while j < file.uris.len()
            invariant
                i < uris.len(),
                j <= file.uris.len(),
                file@.uris.len() == file.uris.len(),
                forall|b: int| 0 <= b < j ==> #[trigger] file@.uris[b].uri != views(uris@)[i as int],
            decreases file.uris.len() - j,
        {
            assert(file@.uris[j as int] == file.uris@[j as int]@);
            if same_text(file.uris[j].uri.as_str(), uris[i].as_str()) {
                assert(file@.uris[j as int].uri == views(uris@)[i as int]);
                assert(fetched_from(file@, views(uris@)));
                return true;
            }
            j += 1;
        }
        i += 1;
    }
    false
}

/// Tells whether the job with the files `files` is a download of one of
/// `uris` with the options `options`.
pub fn is_same_task(files: &Vec<FileInfo>, uris: &Vec<String>, options: &Option<DownloadOptions>) -> (same:
    bool)
    ensures
        same == same_task(
            file_info_views(files@),
            views(uris@),
            wanted_dir(*options),
        ),
{
    let ghost dir = wanted_dir(*options);
    let mut k: usize = 0;
    while k < files.len()
        invariant
            k <= files.len(),
            dir == wanted_dir(*options),
            forall|a: int|
                0 <= a < k ==> !(fetched_from(#[trigger] file_info_views(files@)[a], views(uris@))
                    && (match dir {
                    Some(dir) => dir.is_prefix_of(file_info_views(files@)[a].path),
                    None => true,
                })),
        decreases files.len() - k,
    {
        assert(file_info_views(files@)[k as int] == files@[k as int]@);
        if file_fetched_from(&files[k], uris) {
            let below = match options {
                Some(options) => match &options.dir {
                    Some(dir) => starts_with(files[k].path.as_str(), dir.as_str()),
                    None => true,
                },
                None => true,
            };
            if below {
                assert(same_task(file_info_views(files@), views(uris@), dir));
                return true;
            }
        }
        k += 1;
    }
    false
}

/// A job that the worker knows, with its files where they could be had.
#[derive(Debug, PartialEq, Eq)]
pub struct Candidate {
    /// The worker's identifier of the job.
    pub gid: String,
    /// The files of the job; `None` where the worker did not tell.
    pub files: Option<Vec<FileInfo>>,
}

/// A [`Candidate`] with its texts as sequences of characters.
pub struct CandidateView {
    pub gid: Seq<char>,
    pub files: Option<Seq<FileInfoView>>,
}

impl View for Candidate {
    type V = CandidateView;

    open spec fn view(&self) -> CandidateView {
        CandidateView {
            gid: self.gid@,
            files: match self.files {
                Some(files) => Some(file_info_views(files@)),
                None => None,
            },
        }
    }
}

/// The views of a list of candidates.
pub open spec fn candidate_views(candidates: Seq<Candidate>) -> Seq<CandidateView> {
    candidates.map_values(|candidate: Candidate| candidate@)
}

/// Whether the candidate is a download of one of `uris` to `dir`.
pub open spec fn candidate_matches(
    candidate: CandidateView,
    uris: Seq<Seq<char>>,
    dir: Option<Seq<char>>,
) -> bool {
    match candidate.files {
        Some(files) => same_task(files, uris, dir),
        None => false,
    }
}

/// The first of the candidates that is a download of one of `uris` to
/// `dir`.
pub open spec fn existing_task(
    candidates: Seq<CandidateView>,
    uris: Seq<Seq<char>>,
    dir: Option<Seq<char>>,
) -> Option<Seq<char>>
    decreases candidates.len(),
{
    if candidates.len() == 0 {
        None
    } else {
        match existing_task(candidates.drop_last(), uris, dir) {
            Some(gid) => Some(gid),
            None => if candidate_matches(candidates.last(), uris, dir) {
                Some(candidates.last().gid)
            } else {
                None
            },
        }
    }
}

/// A task found among the first candidates is the task found among all.
pub proof fn lemma_existing_task_stays(
    candidates: Seq<CandidateView>,
    uris: Seq<Seq<char>>,
    dir: Option<Seq<char>>,
    seen: int,
)
    requires
        0 <= seen <= candidates.len(),
        existing_task(candidates.take(seen), uris, dir) is Some,
    ensures
        existing_task(candidates, uris, dir) == existing_task(candidates.take(seen), uris, dir),
    decreases candidates.len() - seen,
{
    if seen < candidates.len() {
        assert(candidates.take(seen + 1).drop_last() =~= candidates.take(seen));
        lemma_existing_task_stays(candidates, uris, dir, seen + 1);
    } else {
        assert(candidates.take(seen) =~= candidates);
    }
}

/// The calls to a control endpoint on this machine, numbered as they are
/// made.
#[derive(Debug, PartialEq, Eq)]
pub struct Aria2RpcClient {
    base_url: String,
    secret: Option<String>,
    request_id: u64,
}

/// The state of an [`Aria2RpcClient`].
pub struct Aria2RpcClientView {
    /// Address of the control endpoint.
    pub base_url: Seq<char>,
    /// Secret that guards the endpoint, if one does.
    pub secret: Option<Seq<char>>,
    /// Number of the next call.
    pub request_id: u64,
}

impl View for Aria2RpcClient {
    type V = Aria2RpcClientView;

    closed spec fn view(&self) -> Aria2RpcClientView {
        Aria2RpcClientView {
            base_url: self.base_url@,
            secret: text_of(self.secret),
            request_id: self.request_id,
        }
    }
}

/// The address of the control endpoint on `port` of this machine.
pub open spec fn endpoint_url(port: u16) -> Seq<char> {
    "http://localhost:"@ + decimal_digits(port as nat) + "/jsonrpc"@
}

/// The call number `id` of `method` with `params` to an endpoint guarded
/// by `secret`.
pub open spec fn numbered_call(
    secret: Option<Seq<char>>,
    id: u64,
    method: Seq<char>,
    params: Seq<RpcParamView>,
) -> JsonRpcRequestView {
    JsonRpcRequestView {
        jsonrpc: "2.0"@,
        id: decimal_digits(id as nat),
        method,
        params: with_token(secret, params),
    }
}

/// Whether `request` is the next call of a client in state `pre`, of
/// `method` with `params`, and `post` the state of the client after it:
/// the call has the number that was next, and the next number is one
/// higher.
pub open spec fn is_next_call(
    pre: Aria2RpcClientView,
    post: Aria2RpcClientView,
    request: JsonRpcRequestView,
    method: Seq<char>,
    params: Seq<RpcParamView>,
) -> bool {
    &&& request == numbered_call(pre.secret, pre.request_id, method, params)
    &&& post == (Aria2RpcClientView { request_id: next_id(pre.request_id), ..pre })
}

/// The number that follows `id`; after the highest comes zero.
pub open spec fn next_id(id: u64) -> u64 {
    if id == u64::MAX {
        0
    } else {
        (id + 1) as u64
    }
}

/// The error that a call ends with when the worker answers with an error
/// object, whose text is `error`.
pub open spec fn server_error(error: Seq<char>) -> Aria2ErrorView {
    Aria2ErrorView::RpcError("服务器错误: "@ + error)
}

/// A text as a parameter of its own, for each of `texts`.
pub open spec fn text_params(texts: Seq<Seq<char>>) -> Seq<RpcParamView> {
    texts.map_values(|text: Seq<char>| RpcParamView::Text(text))
}

impl Aria2RpcClient {
    /// A client for the control endpoint on `port` of this machine, whose
    /// first call has the number one.
    pub fn new(port: u16, secret: Option<String>) -> (client: Self)
        ensures
            client@ == (Aria2RpcClientView {
                base_url: endpoint_url(port),
                secret: text_of(secret),
                request_id: 1,
            }),
    {
        let mut base_url = String::from_str("http://localhost:");
        push_decimal(&mut base_url, port as u64);
        base_url.append("/jsonrpc");
        Aria2RpcClient { base_url, secret, request_id: 1 }
    }

    /// Address of the control endpoint.
    pub fn base_url(&self) -> (url: &String)
        ensures
            url@ == self@.base_url,
    {
        &self.base_url
    }

    /// The next call, of `method` with `params`; the calls are numbered in
    /// the order in which they are asked for.
    pub fn call_method(&mut self, method: &str, params: Vec<RpcParam>) -> (request: JsonRpcRequest)
        ensures
            is_next_call(
                old(self)@,
                final(self)@,
                request@,
                method@,
                param_views(params@),
            ),
    {
        let mut params = params;
        let ghost given = param_views(params@);
        match &self.secret {
            Some(secret) => {
                params.insert(0, RpcParam::Text(joined("token:", secret.as_str())));
                assert(param_views(params@) =~= with_token(self@.secret, given));
            },
            None => {},
        }
        let id = to_decimal(self.request_id);
        self.request_id = self.request_id.wrapping_add(1);
        JsonRpcRequest { jsonrpc: String::from_str("2.0"), id, method: String::from_str(method), params }
    }

    /// Tells the error of a call that the worker answered with an error
    /// object, whose text is `error`.
    pub fn server_error(error: &str) -> (failure: Aria2Error)
        ensures
            failure@ == server_error(error@),
    {
        Aria2Error::RpcError(joined("服务器错误: ", error))
    }

    /// Looks among the jobs that the worker knows for a download of one of
    /// `uris` with the options `options`, and hands out the identifier of
    /// the first.
    pub fn find_existing_task(
        candidates: &Vec<Candidate>,
        uris: &Vec<String>,
        options: &Option<DownloadOptions>,
    ) -> (found: Option<String>)
        ensures
            text_of(found) == existing_task(
                candidate_views(candidates@),
                views(uris@),
                wanted_dir(*options),
            ),
    {
        let ghost dir = wanted_dir(*options);
        let ghost all = candidate_views(candidates@);
        let mut i: usize = 0;
        while i < candidates.len()
            invariant
                i <= candidates.len(),
                all == candidate_views(candidates@),
                dir == wanted_dir(*options),
                existing_task(all.take(i as int), views(uris@), dir) is None,
            decreases candidates.len() - i,
        {
            proof {
                assert(all.take(i + 1).drop_last() =~= all.take(i as int));
                assert(all.take(i + 1).last() == candidates@[i as int]@);
            }
            let matches = match &candidates[i].files {
                Some(files) => is_same_task(files, uris, options),
                None => false,
            };
            if matches {
                proof {
                    lemma_existing_task_stays(all, views(uris@), dir, i + 1);
                }
                return Some(candidates[i].gid.clone());
            }
            i += 1;
        }
        assert(all.take(all.len() as int) =~= all);
        None
    }

    /// The call that adds a download from `uris`. With options the
    /// addresses travel as one list, followed by the options; without,
    /// each address travels as a parameter of its own.
    pub fn add_uri(&mut self, uris: Vec<String>, options: Option<DownloadOptions>) -> (request:
        JsonRpcRequest)
        ensures
            is_next_call(
                old(self)@,
                final(self)@,
                request@,
                "aria2.addUri"@,
                match options {
                    Some(options) => seq![
                        RpcParamView::TextList(views(uris@)),
                        RpcParamView::Settings(options@),
                    ],
                    None => text_params(views(uris@)),
                },
            ),
    {
        let mut params: Vec<RpcParam> = Vec::new();
        match options {
            Some(options) => {
                params.push(RpcParam::TextList(uris));
                params.push(RpcParam::Settings(options));
                assert(param_views(params@) =~= seq![
                    RpcParamView::TextList(views(uris@)),
                    RpcParamView::Settings(options@),
                ]);
            },
            None => {
                let mut i: usize = 0;
                assert(param_views(params@) =~= text_params(views(uris@).take(0)));
                while i < uris.len()
                    invariant
                        i <= uris.len(),
                        param_views(params@) == text_params(views(uris@).take(i as int)),
                    decreases uris.len() - i,
                {
                    let ghost before = param_views(params@);
                    let uri = uris[i].clone();
                    assert(uri@ == views(uris@)[i as int]);
                    params.push(RpcParam::Text(uri));
                    assert(param_views(params@) =~= before.push(RpcParamView::Text(uri@)));
                    assert(text_params(views(uris@).take(i + 1)) =~= text_params(
                        views(uris@).take(i as int),
                    ).push(RpcParamView::Text(uri@)));
                    i += 1;
                }
                assert(views(uris@).take(uris@.len() as int) =~= views(uris@));
            },
        }
        self.call_method("aria2.addUri", params)
    }

    fn about_job(&mut self, method: &str, gid: &str) -> (request: JsonRpcRequest)
        ensures
            is_next_call(
                old(self)@,
                final(self)@,
                request@,
                method@,
                seq![RpcParamView::Text(gid@)],
            ),
    {
        let mut params: Vec<RpcParam> = Vec::new();
        params.push(RpcParam::Text(String::from_str(gid)));
        assert(param_views(params@) =~= seq![RpcParamView::Text(gid@)]);
        self.call_method(method, params)
    }

    fn about_all(&mut self, method: &str) -> (request: JsonRpcRequest)
        ensures
            is_next_call(
                old(self)@,
                final(self)@,
                request@,
                method@,
                Seq::empty(),
            ),
    {
        let params: Vec<RpcParam> = Vec::new();
        assert(param_views(params@) =~= Seq::<RpcParamView>::empty());
        self.call_method(method, params)
    }

    fn about_range(&mut self, method: &str, offset: u32, num: u32) -> (request: JsonRpcRequest)
        ensures
            is_next_call(
                old(self)@,
                final(self)@,
                request@,
                method@,
                seq![RpcParamView::Integer(offset as i64), RpcParamView::Integer(num as i64)],
            ),
    {
        let mut params: Vec<RpcParam> = Vec::new();
        params.push(RpcParam::Integer(offset as i64));
        params.push(RpcParam::Integer(num as i64));
        assert(param_views(params@) =~= seq![
            RpcParamView::Integer(offset as i64),
            RpcParamView::Integer(num as i64),
        ]);
        self.call_method(method, params)
    }

    /// The call that asks for the state of a job.
    pub fn tell_status(&mut self, gid: &str) -> (request: JsonRpcRequest)
        ensures
            is_next_call(
                old(self)@,
                final(self)@,
                request@,
                "aria2.tellStatus"@,
                seq![RpcParamView::Text(gid@)],
            ),
    {
        self.about_job("aria2.tellStatus", gid)
    }

    /// The call that asks for the jobs that are being downloaded.
    pub fn tell_active(&mut self) -> (request: JsonRpcRequest)
        ensures
            is_next_call(
                old(self)@,
                final(self)@,
                request@,
                "aria2.tellActive"@,
                Seq::empty(),
            ),
    {
        self.about_all("aria2.tellActive")
    }

    /// The call that asks for `num` of the jobs that wait, from the one at
    /// `offset` on.
    pub fn tell_waiting(&mut self, offset: u32, num: u32) -> (request: JsonRpcRequest)
        ensures
            is_next_call(
                old(self)@,
                final(self)@,
                request@,
                "aria2.tellWaiting"@,
                seq![RpcParamView::Integer(offset as i64), RpcParamView::Integer(num as i64)],
            ),
    {
        self.about_range("aria2.tellWaiting", offset, num)
    }

    /// The call that asks for `num` of the jobs that have ended, from the
    /// one at `offset` on.
    pub fn tell_stopped(&mut self, offset: u32, num: u32) -> (request: JsonRpcRequest)
        ensures
            is_next_call(
                old(self)@,
                final(self)@,
                request@,
                "aria2.tellStopped"@,
                seq![RpcParamView::Integer(offset as i64), RpcParamView::Integer(num as i64)],
            ),
    {
        self.about_range("aria2.tellStopped", offset, num)
    }

    /// The call that asks for the files of a job.
    pub fn get_files(&mut self, gid: &str) -> (request: JsonRpcRequest)
        ensures
            is_next_call(
                old(self)@,
                final(self)@,
                request@,
                "aria2.getFiles"@,
                seq![RpcParamView::Text(gid@)],
            ),
    {
        self.about_job("aria2.getFiles", gid)
    }

    /// The call that asks for the worker's overall figures.
    pub fn get_global_stat(&mut self) -> (request: JsonRpcRequest)
        ensures
            is_next_call(
                old(self)@,
                final(self)@,
                request@,
                "aria2.getGlobalStat"@,
                Seq::empty(),
            ),
    {
        self.about_all("aria2.getGlobalStat")
    }

    /// The call that pauses a job.
    pub fn pause(&mut self, gid: &str) -> (request: JsonRpcRequest)
        ensures
            is_next_call(
                old(self)@,
                final(self)@,
                request@,
                "aria2.pause"@,
                seq![RpcParamView::Text(gid@)],
            ),
    {
        self.about_job("aria2.pause", gid)
    }

    /// The call that resumes a paused job.
    pub fn unpause(&mut self, gid: &str) -> (request: JsonRpcRequest)
        ensures
            is_next_call(
                old(self)@,
                final(self)@,
                request@,
                "aria2.unpause"@,
                seq![RpcParamView::Text(gid@)],
            ),
    {
        self.about_job("aria2.unpause", gid)
    }

    /// The call that removes a job.
    pub fn remove(&mut self, gid: &str) -> (request: JsonRpcRequest)
        ensures
            is_next_call(
                old(self)@,
                final(self)@,
                request@,
                "aria2.remove"@,
                seq![RpcParamView::Text(gid@)],
            ),
    {
        self.about_job("aria2.remove", gid)
    }

    /// The call that tells the worker to end.
    pub fn shutdown(&mut self) -> (request: JsonRpcRequest)
        ensures
            is_next_call(
                old(self)@,
                final(self)@,
                request@,
                "aria2.shutdown"@,
                Seq::empty(),
            ),
    {
        self.about_all("aria2.shutdown")
    }
}

} // verus!
