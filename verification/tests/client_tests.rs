use burncloud_download_aria2::client::types::{
    Aria2Options, JsonRpcError, JsonRpcRequest, JsonRpcResponse, RpcParam,
};
use burncloud_download_aria2::client::Aria2Client;
use burncloud_download_aria2::Aria2Error;

fn options() -> Aria2Options {
    Aria2Options { dir: "/downloads".to_string(), out: Some("output.bin".to_string()) }
}

fn is_uuid_v4(id: &str) -> bool {
    let bytes = id.as_bytes();
    bytes.len() == 36
        && bytes.iter().enumerate().all(|(i, b)| match i {
            8 | 13 | 18 | 23 => *b == b'-',
            14 => *b == b'4',
            _ => b.is_ascii_hexdigit(),
        })
}

#[test]
fn test_jsonrpc_request_unique_ids() {
    let request1 = JsonRpcRequest::new("method1".to_string(), vec![]);
    let request2 = JsonRpcRequest::new("method2".to_string(), vec![]);

    // IDs should be unique
    assert_ne!(request1.id, request2.id);
}

#[test]
fn new_request_has_version_method_and_params() {
    let request = JsonRpcRequest::new(
        "aria2.addUri".to_string(),
        vec![RpcParam::TextList(vec!["http://example.com/file.bin".to_string()])],
    );
    assert_eq!(request.jsonrpc, "2.0");
    assert_eq!(request.method, "aria2.addUri");
    assert_eq!(
        request.params,
        vec![RpcParam::TextList(vec!["http://example.com/file.bin".to_string()])]
    );
    assert!(is_uuid_v4(&request.id), "{} is no random identifier", request.id);
}

#[test]
fn client_keeps_its_address() {
    let client = Aria2Client::new("http://localhost:6800/jsonrpc".to_string(), None);
    assert_eq!(client.rpc_url(), "http://localhost:6800/jsonrpc");
}

#[test]
fn secret_travels_first_as_token() {
    let client =
        Aria2Client::new("http://localhost:6800/jsonrpc".to_string(), Some("s3cret".to_string()));
    let request = client.tell_status("2089b05ecca3d829");
    assert_eq!(request.jsonrpc, "2.0");
    assert_eq!(request.method, "aria2.tellStatus");
    assert_eq!(
        request.params,
        vec![
            RpcParam::Text("token:s3cret".to_string()),
            RpcParam::Text("2089b05ecca3d829".to_string()),
        ]
    );
    assert!(is_uuid_v4(&request.id));
}

#[test]
fn without_secret_no_token_travels() {
    let client = Aria2Client::new("http://localhost:6800/jsonrpc".to_string(), None);
    assert_eq!(
        client.tell_status("abc").params,
        vec![RpcParam::Text("abc".to_string())]
    );
    assert_eq!(client.get_global_stat().params, vec![]);
}

#[test]
fn request_of_any_method() {
    let client = Aria2Client::new("u".to_string(), Some("k".to_string()));
    let request = client.request("aria2.getVersion", vec![RpcParam::Integer(3)]);
    assert_eq!(request.method, "aria2.getVersion");
    assert_eq!(
        request.params,
        vec![RpcParam::Text("token:k".to_string()), RpcParam::Integer(3)]
    );
}

#[test]
fn add_uri_sends_the_addresses_and_the_options() {
    let client = Aria2Client::new("u".to_string(), None);
    let request = client.add_uri(vec!["http://example.com/a".to_string()], options());
    assert_eq!(request.method, "aria2.addUri");
    assert_eq!(
        request.params,
        vec![
            RpcParam::TextList(vec!["http://example.com/a".to_string()]),
            RpcParam::Options(options()),
        ]
    );
}

#[test]
fn add_torrent_sends_the_file_in_base64() {
    let client = Aria2Client::new("u".to_string(), Some("k".to_string()));
    let request = client.add_torrent(b"hello".to_vec(), options());
    assert_eq!(request.method, "aria2.addTorrent");
    assert_eq!(
        request.params,
        vec![
            RpcParam::Text("token:k".to_string()),
            RpcParam::Text("aGVsbG8=".to_string()),
            RpcParam::TextList(vec![]),
            RpcParam::Options(options()),
        ]
    );
}

#[test]
fn add_metalink_sends_the_file_in_base64() {
    let client = Aria2Client::new("u".to_string(), None);
    let request = client.add_metalink(vec![0xff, 0xfe, 0xfd], options());
    assert_eq!(request.method, "aria2.addMetalink");
    assert_eq!(
        request.params,
        vec![RpcParam::Text("//79".to_string()), RpcParam::Options(options())]
    );
    let empty = client.add_metalink(vec![], options());
    assert_eq!(empty.params[0], RpcParam::Text(String::new()));
}

#[test]
fn calls_about_one_job() {
    let client = Aria2Client::new("u".to_string(), None);
    let gid = vec![RpcParam::Text("g1".to_string())];
    let pause = client.pause("g1");
    assert_eq!((pause.method.as_str(), &pause.params), ("aria2.pause", &gid));
    let unpause = client.unpause("g1");
    assert_eq!((unpause.method.as_str(), &unpause.params), ("aria2.unpause", &gid));
    let remove = client.remove("g1");
    assert_eq!((remove.method.as_str(), &remove.params), ("aria2.remove", &gid));
}

#[test]
fn calls_about_all_jobs() {
    let client = Aria2Client::new("u".to_string(), Some("k".to_string()));
    let token = RpcParam::Text("token:k".to_string());
    let active = client.tell_active();
    assert_eq!(active.method, "aria2.tellActive");
    assert_eq!(active.params, vec![RpcParam::Text("token:k".to_string())]);
    let stat = client.get_global_stat();
    assert_eq!(stat.method, "aria2.getGlobalStat");
    assert_eq!(stat.params, vec![RpcParam::Text("token:k".to_string())]);
    let stopped = client.tell_stopped(0, 1000);
    assert_eq!(stopped.method, "aria2.tellStopped");
    assert_eq!(
        stopped.params,
        vec![RpcParam::Text("token:k".to_string()), RpcParam::Integer(0), RpcParam::Integer(1000)]
    );
    let waiting = client.tell_waiting(-1, 5);
    assert_eq!(waiting.method, "aria2.tellWaiting");
    assert_eq!(waiting.params, vec![token, RpcParam::Integer(-1), RpcParam::Integer(5)]);
}

#[test]
fn answer_with_result_is_the_result() {
    let response = JsonRpcResponse {
        jsonrpc: "2.0".to_string(),
        id: "test-id".to_string(),
        result: Some(serde_json::Value::String("2089b05ecca3d829".to_string())),
        error: None,
    };
    assert_eq!(
        Aria2Client::interpret(response),
        Ok(serde_json::Value::String("2089b05ecca3d829".to_string()))
    );
}

#[test]
fn answer_with_error_is_the_error() {
    let response = JsonRpcResponse {
        jsonrpc: "2.0".to_string(),
        id: "test-id".to_string(),
        result: Some(serde_json::Value::Null),
        error: Some(JsonRpcError { code: 1, message: "Unauthorized".to_string() }),
    };
    assert_eq!(
        Aria2Client::interpret(response),
        Err(Aria2Error::RpcError(1, "Unauthorized".to_string()))
    );
}

#[test]
fn answer_with_neither_is_an_error() {
    let response = JsonRpcResponse {
        jsonrpc: "2.0".to_string(),
        id: "test-id".to_string(),
        result: None,
        error: None,
    };
    assert_eq!(
        Aria2Client::interpret(response),
        Err(Aria2Error::General("No result in response".to_string()))
    );
}

#[test]
fn gid_is_the_text_of_the_result() {
    assert_eq!(
        Aria2Client::gid_from(&serde_json::Value::String("2089b05ecca3d829".to_string())),
        Ok("2089b05ecca3d829".to_string())
    );
    assert_eq!(
        Aria2Client::gid_from(&serde_json::Value::Bool(true)),
        Err(Aria2Error::General("Invalid GID response".to_string()))
    );
    assert_eq!(
        Aria2Client::gid_from(&serde_json::Value::Null),
        Err(Aria2Error::General("Invalid GID response".to_string()))
    );
    assert_eq!(Aria2Client::gid_from_text(Some("g".to_string())), Ok("g".to_string()));
    assert_eq!(
        Aria2Client::gid_from_text(None),
        Err(Aria2Error::General("Invalid GID response".to_string()))
    );
}

#[test]
fn options_clone_copies_every_field() {
    assert_eq!(options().clone(), options());
    let bare = Aria2Options { dir: "/d".to_string(), out: None };
    assert_eq!(bare.clone(), bare);
}
