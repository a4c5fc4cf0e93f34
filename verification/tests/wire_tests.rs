use burncloud_download_aria2::client::types::{
    Aria2Options, JsonRpcError, JsonRpcRequest, JsonRpcResponse, RpcParam,
};
use serde_json::Value;

fn options_value(options: &Aria2Options) -> Value {
    let mut object = serde_json::Map::new();
    object.insert("dir".to_string(), Value::String(options.dir.clone()));
    if let Some(out) = &options.out {
        object.insert("out".to_string(), Value::String(out.clone()));
    }
    Value::Object(object)
}

fn param_value(param: &RpcParam) -> Value {
    match param {
        RpcParam::Text(text) => Value::String(text.clone()),
        RpcParam::TextList(texts) => {
            Value::Array(texts.iter().map(|text| Value::String(text.clone())).collect())
        }
        RpcParam::Integer(number) => Value::from(*number),
        RpcParam::Options(options) => options_value(options),
        RpcParam::Settings(options) => {
            let mut object = serde_json::Map::new();
            if let Some(dir) = &options.dir {
                object.insert("dir".to_string(), Value::String(dir.clone()));
            }
            if let Some(out) = &options.out {
                object.insert("out".to_string(), Value::String(out.clone()));
            }
            Value::Object(object)
        }
    }
}

/// Writes a call as it travels.
fn request_text(request: &JsonRpcRequest) -> String {
    let mut object = serde_json::Map::new();
    object.insert("jsonrpc".to_string(), Value::String(request.jsonrpc.clone()));
    object.insert("id".to_string(), Value::String(request.id.clone()));
    object.insert("method".to_string(), Value::String(request.method.clone()));
    object.insert(
        "params".to_string(),
        Value::Array(request.params.iter().map(param_value).collect()),
    );
    serde_json::to_string(&Value::Object(object)).expect("Failed to serialize")
}

/// Reads an answer as it travels.
fn response_of(json: &str) -> JsonRpcResponse {
    let value: Value = serde_json::from_str(json).expect("Failed to deserialize");
    let text = |key: &str| value.get(key).and_then(|field| field.as_str()).unwrap().to_string();
    JsonRpcResponse {
        jsonrpc: text("jsonrpc"),
        id: text("id"),
        result: value.get("result").cloned(),
        error: value.get("error").map(|error| JsonRpcError {
            code: error.get("code").and_then(|code| code.as_i64()).unwrap() as i32,
            message: error.get("message").and_then(|text| text.as_str()).unwrap().to_string(),
        }),
    }
}

#[test]
fn test_jsonrpc_request_serialization() {
    let request = JsonRpcRequest::new(
        "aria2.addUri".to_string(),
        vec![RpcParam::TextList(vec!["http://example.com/file.bin".to_string()])],
    );

    let serialized = request_text(&request);
    assert!(serialized.contains("\"jsonrpc\":\"2.0\""));
    assert!(serialized.contains("\"method\":\"aria2.addUri\""));
    assert!(serialized.contains("\"id\":"));
    assert!(serialized.contains("\"params\""));
    assert!(serialized.contains("[[\"http://example.com/file.bin\"]]"));
}

#[test]
fn test_jsonrpc_response_deserialization_success() {
    let json = r#"{
            "jsonrpc": "2.0",
            "id": "test-id",
            "result": "2089b05ecca3d829"
        }"#;

    let response = response_of(json);
    assert_eq!(response.jsonrpc, "2.0");
    assert_eq!(response.id, "test-id");
    assert!(response.result.is_some());
    assert!(response.error.is_none());
}

#[test]
fn test_jsonrpc_response_deserialization_error() {
    let json = r#"{
            "jsonrpc": "2.0",
            "id": "test-id",
            "error": {
                "code": 1,
                "message": "Unauthorized"
            }
        }"#;

    let response = response_of(json);
    assert_eq!(response.jsonrpc, "2.0");
    assert!(response.error.is_some());
    let error = response.error.unwrap();
    assert_eq!(error.code, 1);
    assert_eq!(error.message, "Unauthorized");
}

#[test]
fn test_aria2_options_serialization() {
    let options = Aria2Options {
        dir: "/downloads".to_string(),
        out: Some("output.bin".to_string()),
    };

    let serialized = serde_json::to_string(&options_value(&options)).expect("Failed to serialize");
    assert!(serialized.contains("\"dir\":\"/downloads\""));
    assert!(serialized.contains("\"out\":\"output.bin\""));
}

#[test]
fn test_aria2_options_serialization_without_out() {
    let options = Aria2Options { dir: "/downloads".to_string(), out: None };

    let serialized = serde_json::to_string(&options_value(&options)).expect("Failed to serialize");
    assert!(serialized.contains("\"dir\":\"/downloads\""));
    assert!(!serialized.contains("\"out\""));
}
