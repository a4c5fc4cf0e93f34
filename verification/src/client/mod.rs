//! The calls that the host makes to the control endpoint: which method is
//! asked for with which parameters, and what an answer means. Sending a
//! call and receiving its answer is left to the host.

pub mod types;

use crate::client::types::{
    is_request_id, param_views, Aria2Options, JsonRpcRequest, JsonRpcRequestView,
    JsonRpcResponse, RpcParam, RpcParamView,
};
use crate::error::{Aria2Error, Aria2ErrorView};
use crate::text::{joined, text_of, views};
use vstd::prelude::*;
use vstd::string::StringExecFns;

verus! {

/// What `base64`'s standard engine, with padding, makes of a sequence of
/// bytes.
pub uninterp spec fn base64_standard(data: Seq<u8>) -> Seq<char>;

/// Encodes `data` with `base64::Engine::encode` on the engine
/// `base64::engine::general_purpose::STANDARD`. The text is a function of
/// the bytes alone. The encoder gives up where the length of the text does
/// not fit the machine's word, so such data is left out.
#[verifier::external_body]
fn encode_base64(data: &[u8]) -> (text: String)
    requires
        data@.len() <= usize::MAX / 2,
    ensures
        text@ == base64_standard(data@),
{
    base64::Engine::encode(&base64::engine::general_purpose::STANDARD, data)
}

/// The text of a JSON value that is a string, as `serde_json::Value::as_str`
/// tells it; a JSON value of any other kind has none.
pub uninterp spec fn json_string(value: serde_json::Value) -> Option<Seq<char>>;

/// Asks `serde_json::Value::as_str` for the text of a JSON string, and
/// copies it; any other JSON value has none. The answer depends on the
/// value alone.
#[verifier::external_body]
fn json_text(value: &serde_json::Value) -> (text: Option<String>)
    ensures
        text_of(text) == json_string(*value),
{
    match value.as_str() {
        Some(text) => Some(text.to_string()),
        None => None,
    }
}

/// The parameters of a call as they are sent: where the endpoint is
/// guarded by a secret, the token that carries it comes first.
pub open spec fn with_token(secret: Option<Seq<char>>, params: Seq<RpcParamView>) -> Seq<
    RpcParamView,
> {
    match secret {
        Some(secret) => seq![RpcParamView::Text("token:"@ + secret)] + params,
        None => params,
    }
}

/// Whether `request` is the call of `method` with `params` for an endpoint
/// that is guarded by `secret`: version 2.0 of the protocol, under a random
/// identifier.
pub open spec fn is_call(
    secret: Option<Seq<char>>,
    request: JsonRpcRequestView,
    method: Seq<char>,
    params: Seq<RpcParamView>,
) -> bool {
    &&& request.jsonrpc == "2.0"@
    &&& is_request_id(request.id)
    &&& request.method == method
    &&& request.params == with_token(secret, params)
}

/// What the answer to a call means: an error object is the error of the
/// call, whatever else the answer holds; without one the result is handed
/// on; an answer with neither is an error.
pub open spec fn answer_of(response: JsonRpcResponse) -> Result<serde_json::Value, Aria2ErrorView> {
    match (response.error, response.result) {
        (Some(error), _) => Err(Aria2ErrorView::RpcError(error.code, error.message@)),
        (None, Some(value)) => Ok(value),
        (None, None) => Err(Aria2ErrorView::General("No result in response"@)),
    }
}

/// The job identifier in the answer to a call that adds a job: the text of
/// the result, which is an error where the result is no text.
pub open spec fn gid_of(text: Option<Seq<char>>) -> Result<Seq<char>, Aria2ErrorView> {
    match text {
        Some(gid) => Ok(gid),
        None => Err(Aria2ErrorView::General("Invalid GID response"@)),
    }
}

/// The view of a result that carries a text.
pub open spec fn text_result(outcome: Result<String, Aria2Error>) -> Result<
    Seq<char>,
    Aria2ErrorView,
> {
    match outcome {
        Ok(text) => Ok(text@),
        Err(error) => Err(error@),
    }
}

/// The view of a result that carries a JSON value.
pub open spec fn value_result(outcome: Result<serde_json::Value, Aria2Error>) -> Result<
    serde_json::Value,
    Aria2ErrorView,
> {
    match outcome {
        Ok(value) => Ok(value),
        Err(error) => Err(error@),
    }
}

/// The address and secret of a control endpoint, and with them the calls
/// that can be made to it.
#[derive(Debug, PartialEq, Eq)]
pub struct Aria2Client {
    rpc_url: String,
    secret: Option<String>,
}

/// The state of an [`Aria2Client`].
pub struct Aria2ClientView {
    /// Address of the control endpoint.
    pub rpc_url: Seq<char>,
    /// Secret that guards the endpoint, if one does.
    pub secret: Option<Seq<char>>,
}

impl View for Aria2Client {
    type V = Aria2ClientView;

    closed spec fn view(&self) -> Aria2ClientView {
        Aria2ClientView { rpc_url: self.rpc_url@, secret: text_of(self.secret) }
    }
}

impl Aria2Client {
    /// Whether `request` is a call of `method` with `params`, as this
    /// client sends it.
    pub open spec fn sends(self, request: JsonRpcRequest, method: Seq<char>, params: Seq<
        RpcParamView,
    >) -> bool {
        is_call(self@.secret, request@, method, params)
    }

    /// A client for the endpoint at `rpc_url`.
    pub fn new(rpc_url: String, secret: Option<String>) -> (client: Self)
        ensures
            client@ == (Aria2ClientView { rpc_url: rpc_url@, secret: text_of(secret) }),
    {
        Aria2Client { rpc_url, secret }
    }

    /// Address of the control endpoint.
    pub fn rpc_url(&self) -> (url: &String)
        ensures
            url@ == self@.rpc_url,
    {
        &self.rpc_url
    }

    /// The call of `method` with `params`.
    pub fn request(&self, method: &str, params: Vec<RpcParam>) -> (request: JsonRpcRequest)
        ensures
            self.sends(request, method@, param_views(params@)),
    {
        let mut params = params;
        let ghost given = param_views(params@);
        match &self.secret {
            Some(secret) => {
                params.insert(0, RpcParam::Text(joined("token:", secret.as_str())));
                assert(param_views(params@) =~= with_token(self@.secret, given));
            },
            None => {},
        }
        JsonRpcRequest::new(String::from_str(method), params)
    }

    /// Reads the answer to a call.
    pub fn interpret(response: JsonRpcResponse) -> (outcome: Result<serde_json::Value, Aria2Error>)
        ensures
            value_result(outcome) == answer_of(response),
    {
        match response.error {
            Some(error) => Err(Aria2Error::RpcError(error.code, error.message)),
            None => match response.result {
                Some(value) => Ok(value),
                None => Err(Aria2Error::General(String::from_str("No result in response"))),
            },
        }
    }

    /// Reads the job identifier from the text of a result.
    pub fn gid_from_text(text: Option<String>) -> (gid: Result<String, Aria2Error>)
        ensures
            text_result(gid) == gid_of(text_of(text)),
    {
        match text {
            Some(gid) => Ok(gid),
            None => Err(Aria2Error::General(String::from_str("Invalid GID response"))),
        }
    }

    /// Reads the job identifier from the result of a call that adds a job:
    /// the text of a result that is a JSON string, and an error for any
    /// other result.
    pub fn gid_from(result: &serde_json::Value) -> (gid: Result<String, Aria2Error>)
        ensures
            text_result(gid) == gid_of(json_string(*result)),
    {
        Self::gid_from_text(json_text(result))
    }

    /// The call that adds a download from the given addresses.
    pub fn add_uri(&self, uris: Vec<String>, options: Aria2Options) -> (request: JsonRpcRequest)
        ensures
            self.sends(
                request,
                "aria2.addUri"@,
                seq![RpcParamView::TextList(views(uris@)), RpcParamView::Options(options@)],
            ),
    {
        let mut params: Vec<RpcParam> = Vec::new();
        params.push(RpcParam::TextList(uris));
        params.push(RpcParam::Options(options));
        assert(param_views(params@) =~= seq![
            RpcParamView::TextList(views(uris@)),
            RpcParamView::Options(options@),
        ]);
        self.request("aria2.addUri", params)
    }

    /// The call that adds the download that a torrent file describes.
    pub fn add_torrent(&self, torrent_data: Vec<u8>, options: Aria2Options) -> (request:
        JsonRpcRequest)
        requires
            torrent_data@.len() <= usize::MAX / 2,
        ensures
            self.sends(
                request,
                "aria2.addTorrent"@,
                seq![
                    RpcParamView::Text(base64_standard(torrent_data@)),
                    RpcParamView::TextList(Seq::empty()),
                    RpcParamView::Options(options@),
                ],
            ),
    {
        let mut params: Vec<RpcParam> = Vec::new();
        params.push(RpcParam::Text(encode_base64(torrent_data.as_slice())));
        let no_uris: Vec<String> = Vec::new();
        assert(views(no_uris@) =~= Seq::<Seq<char>>::empty());
        params.push(RpcParam::TextList(no_uris));
        params.push(RpcParam::Options(options));
        assert(param_views(params@) =~= seq![
            RpcParamView::Text(base64_standard(torrent_data@)),
            RpcParamView::TextList(Seq::empty()),
            RpcParamView::Options(options@),
        ]);
        self.request("aria2.addTorrent", params)
    }

    /// The call that adds the downloads that a metalink file describes.
    pub fn add_metalink(&self, metalink_data: Vec<u8>, options: Aria2Options) -> (request:
        JsonRpcRequest)
        requires
            metalink_data@.len() <= usize::MAX / 2,
        ensures
            self.sends(
                request,
                "aria2.addMetalink"@,
                seq![
                    RpcParamView::Text(base64_standard(metalink_data@)),
                    RpcParamView::Options(options@),
                ],
            ),
    {
        let mut params: Vec<RpcParam> = Vec::new();
        params.push(RpcParam::Text(encode_base64(metalink_data.as_slice())));
        params.push(RpcParam::Options(options));
        assert(param_views(params@) =~= seq![
            RpcParamView::Text(base64_standard(metalink_data@)),
            RpcParamView::Options(options@),
        ]);
        self.request("aria2.addMetalink", params)
    }

    fn about_job(&self, method: &str, gid: &str) -> (request: JsonRpcRequest)
        ensures
            self.sends(request, method@, seq![RpcParamView::Text(gid@)]),
    {
        let mut params: Vec<RpcParam> = Vec::new();
        params.push(RpcParam::Text(String::from_str(gid)));
        assert(param_views(params@) =~= seq![RpcParamView::Text(gid@)]);
        self.request(method, params)
    }

    fn about_all(&self, method: &str) -> (request: JsonRpcRequest)
        ensures
            self.sends(request, method@, Seq::empty()),
    {
        let params: Vec<RpcParam> = Vec::new();
        assert(param_views(params@) =~= Seq::<RpcParamView>::empty());
        self.request(method, params)
    }

    fn about_range(&self, method: &str, offset: i32, num: i32) -> (request: JsonRpcRequest)
        ensures
            self.sends(
                request,
                method@,
                seq![RpcParamView::Integer(offset as i64), RpcParamView::Integer(num as i64)],
            ),
    {
        let mut params: Vec<RpcParam> = Vec::new();
        params.push(RpcParam::Integer(offset as i64));
        params.push(RpcParam::Integer(num as i64));
        assert(param_views(params@) =~= seq![
            RpcParamView::Integer(offset as i64),
            RpcParamView::Integer(num as i64),
        ]);
        self.request(method, params)
    }

    /// The call that asks for the state of a job.
    pub fn tell_status(&self, gid: &str) -> (request: JsonRpcRequest)
        ensures
            self.sends(request, "aria2.tellStatus"@, seq![RpcParamView::Text(gid@)]),
    {
        self.about_job("aria2.tellStatus", gid)
    }

    /// The call that pauses a job.
    pub fn pause(&self, gid: &str) -> (request: JsonRpcRequest)
        ensures
            self.sends(request, "aria2.pause"@, seq![RpcParamView::Text(gid@)]),
    {
        self.about_job("aria2.pause", gid)
    }

    /// The call that resumes a paused job.
    pub fn unpause(&self, gid: &str) -> (request: JsonRpcRequest)
        ensures
            self.sends(request, "aria2.unpause"@, seq![RpcParamView::Text(gid@)]),
    {
        self.about_job("aria2.unpause", gid)
    }

    /// The call that removes a job.
    pub fn remove(&self, gid: &str) -> (request: JsonRpcRequest)
        ensures
            self.sends(request, "aria2.remove"@, seq![RpcParamView::Text(gid@)]),
    {
        self.about_job("aria2.remove", gid)
    }

    /// The call that asks for the worker's overall figures. It changes
    /// nothing and costs little, so it serves as the probe of the endpoint.
    pub fn get_global_stat(&self) -> (request: JsonRpcRequest)
        ensures
            self.sends(request, "aria2.getGlobalStat"@, Seq::empty()),
    {
        self.about_all("aria2.getGlobalStat")
    }

    /// The call that asks for the jobs that are being downloaded.
    pub fn tell_active(&self) -> (request: JsonRpcRequest)
        ensures
            self.sends(request, "aria2.tellActive"@, Seq::empty()),
    {
        self.about_all("aria2.tellActive")
    }

    /// The call that asks for `num` of the jobs that have ended, from the
    /// one at `offset` on.
    pub fn tell_stopped(&self, offset: i32, num: i32) -> (request: JsonRpcRequest)
        ensures
            self.sends(
                request,
                "aria2.tellStopped"@,
                seq![RpcParamView::Integer(offset as i64), RpcParamView::Integer(num as i64)],
            ),
    {
        self.about_range("aria2.tellStopped", offset, num)
    }

    /// The call that asks for `num` of the jobs that wait, from the one at
    /// `offset` on.
    pub fn tell_waiting(&self, offset: i32, num: i32) -> (request: JsonRpcRequest)
        ensures
            self.sends(
                request,
                "aria2.tellWaiting"@,
                seq![RpcParamView::Integer(offset as i64), RpcParamView::Integer(num as i64)],
            ),
    {
        self.about_range("aria2.tellWaiting", offset, num)
    }
}

} // verus!
