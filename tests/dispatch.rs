use std::sync::Arc;

use mcp_server::config::AppConfig;
use mcp_server::error::AppError;
use mcp_server::health_check::health_check;
use mcp_server::json::Json;
use mcp_server::protocol::{
    ClientInfo, InitializeParams, JsonRpcRequest, JsonRpcResponse, ToolCallParams, ToolResult, INVALID_PARAMS, METHOD_NOT_FOUND,
    PARSE_ERROR,
};
use mcp_server::registry::ToolRegistry;
use mcp_server::server::McpServer;

const STATUS: &str = "server: mcp-server\nversion: 0.1.0\nstatus: healthy";

fn server() -> McpServer {
    McpServer::new(ToolRegistry::new(Arc::new(AppConfig::default())))
}

fn s(text: &str) -> Json {
    Json::Str(text.to_string())
}

fn num(text: &str) -> Json {
    Json::Number(text.to_string())
}

fn obj(members: Vec<(&str, Json)>) -> Json {
    Json::Object(members.into_iter().map(|(k, v)| (k.to_string(), v)).collect())
}

fn request(id: Option<Json>, method: &str, params: Option<Json>) -> Json {
    let mut members = vec![("jsonrpc", s("2.0"))];
    if let Some(id) = id {
        members.push(("id", id));
    }
    members.push(("method", s(method)));
    if let Some(p) = params {
        members.push(("params", p));
    }
    obj(members)
}

fn get<'a>(j: &'a Json, key: &str) -> Option<&'a Json> {
    match j {
        Json::Object(f) => f.iter().find(|(k, _)| k == key).map(|(_, v)| v),
        _ => None,
    }
}

fn answer(message: Json) -> JsonRpcResponse {
    server().handle_message(Ok(message)).expect("a response")
}

fn only_text(result: &Json) -> String {
    match get(result, "content") {
        Some(Json::Array(items)) => {
            assert_eq!(items.len(), 1);
            assert_eq!(get(&items[0], "type"), Some(&s("text")));
            match get(&items[0], "text") {
                Some(Json::Str(t)) => t.clone(),
                other => panic!("no text: {:?}", other),
            }
        }
        other => panic!("no content: {:?}", other),
    }
}

fn to_value(j: &Json) -> serde_json::Value {
    match j {
        Json::Null => serde_json::Value::Null,
        Json::Bool(b) => serde_json::Value::Bool(*b),
        Json::Number(n) => serde_json::Value::Number(n.parse().unwrap()),
        Json::Str(t) => serde_json::Value::String(t.clone()),
        Json::Array(items) => serde_json::Value::Array(items.iter().map(to_value).collect()),
        Json::Object(f) => {
            let mut m = serde_json::Map::new();
            for (k, v) in f {
                m.insert(k.clone(), to_value(v));
            }
            serde_json::Value::Object(m)
        }
    }
}

fn from_value(v: serde_json::Value) -> Json {
    match v {
        serde_json::Value::Null => Json::Null,
        serde_json::Value::Bool(b) => Json::Bool(b),
        serde_json::Value::Number(n) => Json::Number(n.to_string()),
        serde_json::Value::String(t) => Json::Str(t),
        serde_json::Value::Array(items) => Json::Array(items.into_iter().map(from_value).collect()),
        serde_json::Value::Object(m) => {
            Json::Object(m.into_iter().map(|(k, v)| (k, from_value(v))).collect())
        }
    }
}

fn envelope_value(resp: &JsonRpcResponse) -> serde_json::Value {
    let mut m = serde_json::Map::new();
    m.insert("jsonrpc".to_string(), serde_json::Value::String(resp.jsonrpc.clone()));
    if let Some(id) = &resp.id {
        m.insert("id".to_string(), to_value(id));
    }
    if let Some(r) = &resp.result {
        m.insert("result".to_string(), to_value(r));
    }
    if let Some(e) = &resp.error {
        let mut em = serde_json::Map::new();
        em.insert("code".to_string(), serde_json::Value::from(e.code));
        em.insert("message".to_string(), serde_json::Value::String(e.message.clone()));
        m.insert("error".to_string(), serde_json::Value::Object(em));
    }
    serde_json::Value::Object(m)
}

#[test]
fn numeric_id_is_echoed() {
    let resp = answer(request(Some(num("7")), "ping", None));
    assert_eq!(resp.id, Some(num("7")));
    assert_eq!(resp.jsonrpc, "2.0");
}

#[test]
fn string_id_is_echoed() {
    let resp = answer(request(Some(s("7")), "tools/list", None));
    assert_eq!(resp.id, Some(s("7")));
    let resp = answer(request(Some(s("abc")), "no/such", None));
    assert_eq!(resp.id, Some(s("abc")));
}

#[test]
fn invalid_json_gives_parse_error() {
    let resp = server().handle_message(Err("expected value at line 1 column 1".to_string())).unwrap();
    assert_eq!(resp.id, None);
    assert!(resp.result.is_none());
    let e = resp.error.unwrap();
    assert_eq!(e.code, PARSE_ERROR);
    assert_eq!(e.code, -32700);
    assert_eq!(e.message, "Parse error: expected value at line 1 column 1");
}

#[test]
fn non_envelope_gives_parse_error() {
    for j in [
        Json::Array(vec![]),
        obj(vec![("jsonrpc", s("2.0")), ("id", num("1"))]),
        obj(vec![("jsonrpc", s("2.0")), ("id", num("1")), ("method", num("3"))]),
        obj(vec![("id", num("1")), ("method", s("ping"))]),
    ] {
        let resp = answer(j);
        assert_eq!(resp.id, None);
        let e = resp.error.unwrap();
        assert_eq!(e.code, -32700);
        assert!(e.message.starts_with("Parse error: "));
    }
}

#[test]
fn unknown_method_is_named() {
    let resp = answer(request(Some(num("2")), "resources/list", None));
    assert!(resp.result.is_none());
    let e = resp.error.unwrap();
    assert_eq!(e.code, METHOD_NOT_FOUND);
    assert_eq!(e.code, -32601);
    assert_eq!(e.message, "Method not found: resources/list");
}

#[test]
fn tools_call_without_params() {
    let resp = answer(request(Some(num("3")), "tools/call", None));
    let e = resp.error.unwrap();
    assert_eq!(e.code, INVALID_PARAMS);
    assert_eq!(e.code, -32602);
    assert_eq!(e.message, "Missing params");
    let resp = answer(request(Some(num("3")), "tools/call", Some(Json::Null)));
    assert_eq!(resp.error.unwrap().message, "Missing params");
}

#[test]
fn tools_call_with_malformed_params() {
    let resp = answer(request(Some(num("4")), "tools/call", Some(obj(vec![("name", num("5"))]))));
    let e = resp.error.unwrap();
    assert_eq!(e.code, -32602);
    assert!(e.message.starts_with("Invalid tool call params: "));
    let resp = answer(request(Some(num("4")), "tools/call", Some(s("health_check"))));
    assert_eq!(resp.error.unwrap().code, -32602);
}

#[test]
fn unknown_tool_is_a_flagged_result() {
    let params = obj(vec![("name", s("frobnicate")), ("arguments", obj(vec![]))]);
    let resp = answer(request(Some(num("5")), "tools/call", Some(params)));
    assert!(resp.error.is_none());
    let result = resp.result.unwrap();
    assert_eq!(get(&result, "isError"), Some(&Json::Bool(true)));
    let text = only_text(&result);
    assert_eq!(text, "Tool execution error: Unknown tool: frobnicate");
    assert!(text.contains("frobnicate"));
}

#[test]
fn tools_list_holds_the_registered_tools() {
    let resp = answer(request(Some(num("6")), "tools/list", None));
    let result = resp.result.unwrap();
    let tools = match get(&result, "tools") {
        Some(Json::Array(items)) => items,
        other => panic!("no tools: {:?}", other),
    };
    assert_eq!(tools.len(), 1);
    assert_eq!(get(&tools[0], "name"), Some(&s("health_check")));
    assert_eq!(
        get(&tools[0], "description"),
        Some(&s("Check server health and return version info"))
    );
    let schema = get(&tools[0], "inputSchema").unwrap();
    assert_eq!(schema, &obj(vec![("type", s("object")), ("properties", obj(vec![]))]));
}

#[test]
fn ping_is_repeatable() {
    let srv = server();
    for i in 0..3 {
        let id = num(&i.to_string());
        let resp = srv.handle_message(Ok(request(Some(id), "ping", None))).unwrap();
        assert_eq!(resp.result, Some(obj(vec![])));
        assert!(resp.error.is_none());
    }
}

#[test]
fn initialize_is_repeatable() {
    let srv = server();
    let params = obj(vec![
        ("protocolVersion", s("1999-01-01")),
        ("capabilities", obj(vec![])),
        ("clientInfo", obj(vec![("name", s("client"))])),
    ]);
    let a = srv.handle_message(Ok(request(Some(num("1")), "initialize", Some(params)))).unwrap();
    let b = srv.handle_message(Ok(request(Some(num("2")), "initialize", Some(num("9"))))).unwrap();
    let expected = obj(vec![
        ("protocolVersion", s("2024-11-05")),
        ("capabilities", obj(vec![("tools", obj(vec![("listChanged", Json::Bool(false))]))])),
        ("serverInfo", obj(vec![("name", s("mcp-server")), ("version", s("0.1.0"))])),
    ]);
    assert_eq!(a.result, Some(expected));
    assert_eq!(a.result, b.result);
}

#[test]
fn notifications_get_no_answer() {
    let srv = server();
    assert!(srv.handle_message(Ok(request(None, "notifications/initialized", None))).is_none());
    assert!(srv
        .handle_message(Ok(request(Some(num("1")), "notifications/initialized", None)))
        .is_none());
    assert!(srv.handle_message(Ok(request(None, "ping", None))).is_none());
    assert!(srv.handle_message(Ok(request(Some(Json::Null), "ping", None))).is_none());
}

#[test]
fn notification_takes_no_output_slot() {
    let srv = server();
    let lines = vec![
        request(None, "notifications/initialized", None),
        request(Some(s("A")), "ping", None),
        request(Some(s("B")), "tools/list", None),
    ];
    let out: Vec<JsonRpcResponse> =
        lines.into_iter().filter_map(|j| srv.handle_message(Ok(j))).collect();
    assert_eq!(out.len(), 2);
    assert_eq!(out[0].id, Some(s("A")));
    assert_eq!(out[1].id, Some(s("B")));
}

#[test]
fn health_check_end_to_end() {
    let line = r#"{"jsonrpc":"2.0","id":1,"method":"tools/call","params":{"name":"health_check"}}"#;
    let parsed = serde_json::from_str::<serde_json::Value>(line).map(from_value);
    let resp = server().handle_message(parsed.map_err(|e| e.to_string())).unwrap();
    let out = serde_json::to_string(&envelope_value(&resp)).unwrap();
    let got: serde_json::Value = serde_json::from_str(&out).unwrap();
    let expected: serde_json::Value = serde_json::from_str(
        r#"{"jsonrpc":"2.0","id":1,"result":{"content":[{"type":"text","text":"server: mcp-server\nversion: 0.1.0\nstatus: healthy"}]}}"#,
    )
    .unwrap();
    assert_eq!(got, expected);
    assert!(!out.contains("isError"));
}

#[test]
fn decode_request_reads_members() {
    let j = obj(vec![
        ("method", s("ping")),
        ("id", num("-3")),
        ("jsonrpc", s("2.0")),
        ("params", Json::Null),
    ]);
    let req = JsonRpcRequest::from_json(j).unwrap();
    assert_eq!(req.method, "ping");
    assert_eq!(req.id, Some(num("-3")));
    assert_eq!(req.params, None);
    assert!(JsonRpcRequest::from_json(s("x")).is_err());
}

#[test]
fn decode_call_params() {
    let p = ToolCallParams::from_json(obj(vec![("name", s("t")), ("arguments", num("1"))])).unwrap();
    assert_eq!(p.name, "t");
    assert_eq!(p.arguments, Some(num("1")));
    let p = ToolCallParams::from_json(obj(vec![("name", s("t"))])).unwrap();
    assert_eq!(p.arguments, None);
    assert!(ToolCallParams::from_json(obj(vec![("arguments", num("1"))])).is_err());
}

#[test]
fn tool_results_and_their_json() {
    let ok = ToolResult::success("fine".to_string());
    assert_eq!(ok.is_error, None);
    assert_eq!(ok.content[0].content_type, "text");
    assert_eq!(
        ok.to_json(),
        obj(vec![("content", Json::Array(vec![obj(vec![("type", s("text")), ("text", s("fine"))])]))])
    );
    let bad = ToolResult::error("broke".to_string());
    assert_eq!(bad.is_error, Some(true));
    assert_eq!(get(&bad.to_json(), "isError"), Some(&Json::Bool(true)));
    assert_eq!(only_text(&bad.to_json()), "broke");
}

#[test]
fn registry_calls_and_rejects() {
    let reg = ToolRegistry::new(Arc::new(AppConfig::default()));
    let t = reg.call_tool("health_check", obj(vec![])).unwrap();
    assert_eq!(t.content[0].text, STATUS);
    match reg.call_tool("nope", Json::Null) {
        Err(AppError::Tool(m)) => assert_eq!(m, "Unknown tool: nope"),
        other => panic!("{:?}", other),
    }
    let t = health_check(&AppConfig::default(), Json::Null).unwrap();
    assert_eq!(t.content[0].text, STATUS);
    assert_eq!(reg.list_tools().len(), 1);
}

#[test]
fn error_messages() {
    let e = AppError::Tool("x".to_string());
    assert_eq!(e.message(), "Tool error: x");
    assert_eq!(e.detail(), "x");
    assert_eq!(AppError::Config("y".to_string()).message(), "Configuration error: y");
}

#[test]
fn response_constructors() {
    let r = JsonRpcResponse::success(Some(num("1")), Json::Null);
    assert_eq!(r.result, Some(Json::Null));
    assert!(r.error.is_none());
    let r = JsonRpcResponse::error(None, -32601, "m".to_string());
    assert!(r.result.is_none());
    let e = r.error.unwrap();
    assert_eq!((e.code, e.message.as_str(), e.data), (-32601, "m", None));
}

#[test]
fn decode_initialize_params() {
    let j = obj(vec![
        ("protocolVersion", s("2024-11-05")),
        ("clientInfo", obj(vec![("name", s("c")), ("version", s("1.2"))])),
    ]);
    let p = InitializeParams::from_json(j).unwrap();
    assert_eq!(p.protocol_version, "2024-11-05");
    assert_eq!(p.capabilities, Json::Null);
    let c = p.client_info.unwrap();
    assert_eq!((c.name.as_str(), c.version.as_deref()), ("c", Some("1.2")));
    let j = obj(vec![("protocolVersion", s("x")), ("capabilities", obj(vec![])), ("clientInfo", Json::Null)]);
    let p = InitializeParams::from_json(j).unwrap();
    assert_eq!(p.capabilities, obj(vec![]));
    assert!(p.client_info.is_none());
    assert!(InitializeParams::from_json(obj(vec![("capabilities", obj(vec![]))])).is_err());
    let bad_client = obj(vec![("protocolVersion", s("x")), ("clientInfo", obj(vec![("version", s("1"))]))]);
    assert!(InitializeParams::from_json(bad_client).is_err());
}

#[test]
fn decode_client_info() {
    let c = ClientInfo::from_json(obj(vec![("name", s("c"))])).unwrap();
    assert_eq!(c.version, None);
    assert!(ClientInfo::from_json(obj(vec![("name", s("c")), ("version", num("2"))])).is_err());
    assert!(ClientInfo::from_json(Json::Null).is_err());
}
