use vstd::prelude::*;

use crate::json::{field_of, is_str, present, string_value, take_fields, Json};

verus! {

/// The protocol revision that this server speaks, whatever the client claims.
pub const PROTOCOL_VERSION: &'static str = "2024-11-05";

/// The server's name, as the handshake reports it.
pub const SERVER_NAME: &'static str = "mcp-server";

/// The server's release version, as the handshake reports it.
pub const SERVER_VERSION: &'static str = "0.1.0";

/// The JSON-RPC version tag of every envelope.
pub const JSONRPC_VERSION: &'static str = "2.0";

/// JSON-RPC error code: the line is not a well-formed envelope.
pub const PARSE_ERROR: i64 = -32700;

/// JSON-RPC error code: no such method.
pub const METHOD_NOT_FOUND: i64 = -32601;

/// JSON-RPC error code: missing or malformed parameters.
pub const INVALID_PARAMS: i64 = -32602;

/// An incoming request or notification. A request without `id` is a
/// notification and is never answered.
#[derive(Debug)]
pub struct JsonRpcRequest {
    pub jsonrpc: String,
    pub id: Option<Json>,
    pub method: String,
    pub params: Option<Json>,
}

/// A protocol-level error carried by a response.
#[derive(Debug)]
pub struct JsonRpcError {
    pub code: i64,
    pub message: String,
    pub data: Option<Json>,
}

/// An outgoing response: exactly one of `result` and `error` is present.
#[derive(Debug)]
pub struct JsonRpcResponse {
    pub jsonrpc: String,
    pub id: Option<Json>,
    pub result: Option<Json>,
    pub error: Option<JsonRpcError>,
}

/// The text of a string-valued member, if the member is there and is a string.
pub open spec fn str_field(f: Seq<(String, Json)>, key: Seq<char>) -> Option<Seq<char>> {
    match field_of(f, key) {
        Some(v) => string_value(v),
        None => None,
    }
}

/// Moves a required string member out of its slot.
fn take_string(slot: Option<Json>, key: &str) -> (r: Result<String, String>)
    ensures
        match r {
            Ok(s) => string_value(slot.unwrap()) == Some(s@) && slot is Some,
            Err(_) => slot is None || string_value(slot.unwrap()) is None,
        },
{
    match slot {
        Some(Json::Str(s)) => Ok(s),
        Some(_) => Err(String::from_str("invalid type: expected a string for `").concat(key).concat("`")),
        None => Err(String::from_str("missing field `").concat(key).concat("`")),
    }
}

/// Turns `null` into absence.
fn take_present(slot: Option<Json>) -> (r: Option<Json>)
    ensures
        r == present(slot),
{
    match slot {
        Some(Json::Null) => None,
        other => other,
    }
}

/// Four names, as owned strings.
fn names4(a: &str, b: &str, c: &str, d: &str) -> (r: Vec<String>)
    ensures
        r@.len() == 4,
        r@[0]@ == a@,
        r@[1]@ == b@,
        r@[2]@ == c@,
        r@[3]@ == d@,
{
    let mut v: Vec<String> = Vec::new();
    v.push(String::from_str(a));
    v.push(String::from_str(b));
    v.push(String::from_str(c));
    v.push(String::from_str(d));
    v
}

impl JsonRpcRequest {
    /// The request that an envelope value decodes to: an object whose
    /// `jsonrpc` and `method` members are strings. `id` and `params` are
    /// optional, and `null` counts as absent.
    pub open spec fn decodes_to(j: Json, req: JsonRpcRequest) -> bool {
        match j {
            Json::Object(f) => {
                &&& str_field(f@, "jsonrpc"@) == Some(req.jsonrpc@)
                &&& str_field(f@, "method"@) == Some(req.method@)
                &&& req.id == present(field_of(f@, "id"@))
                &&& req.params == present(field_of(f@, "params"@))
            },
            _ => false,
        }
    }

    /// Whether an envelope value is well formed.
    pub open spec fn is_envelope(j: Json) -> bool {
        match j {
            Json::Object(f) => str_field(f@, "jsonrpc"@) is Some && str_field(f@, "method"@) is Some,
            _ => false,
        }
    }

    /// Decodes an envelope; fails, with a description, on anything else.
    pub fn from_json(j: Json) -> (r: Result<JsonRpcRequest, String>)
        ensures
            r is Ok <==> Self::is_envelope(j),
            r matches Ok(req) ==> Self::decodes_to(j, req),
    {
        match j {
            Json::Object(f) => {
                let ghost fs = f@;
                let names = names4("jsonrpc", "id", "method", "params");
                proof {
                    reveal_strlit("jsonrpc");
                    reveal_strlit("id");
                    reveal_strlit("method");
                    reveal_strlit("params");
                    assert(names@[0]@.len() != names@[1]@.len());
                    assert(names@[0]@.len() != names@[2]@.len());
                    assert(names@[0]@.len() != names@[3]@.len());
                    assert(names@[1]@.len() != names@[2]@.len());
                    assert(names@[1]@.len() != names@[3]@.len());
                    assert(names@[2]@[0] != names@[3]@[0]);
                    assert(forall|i: int, j: int|
                        0 <= i < j < 4 ==> names@[i]@ != names@[j]@);
                }
                let mut slots = take_fields(f, &names);
                let params = take_present(slots.pop().unwrap());
                let method = take_string(slots.pop().unwrap(), "method");
                let id = take_present(slots.pop().unwrap());
                let jsonrpc = take_string(slots.pop().unwrap(), "jsonrpc");
                match jsonrpc {
                    Err(e) => Err(e),
                    Ok(jsonrpc) => match method {
                        Err(e) => Err(e),
                        Ok(method) => Ok(JsonRpcRequest { jsonrpc, id, method, params }),
                    },
                }
            },
            _ => Err(String::from_str("invalid type: expected a JSON-RPC object")),
        }
    }
}

impl JsonRpcResponse {
    /// Exactly one of result and error is present.
    pub open spec fn wf(&self) -> bool {
        self.result is Some != self.error is Some
    }

    /// A successful response carrying `result`.
    pub fn success(id: Option<Json>, result: Json) -> (r: Self)
        ensures
            r.jsonrpc@ == JSONRPC_VERSION@,
            r.id == id,
            r.result == Some(result),
            r.error is None,
            r.wf(),
    {
        JsonRpcResponse {
            jsonrpc: String::from_str(JSONRPC_VERSION),
            id,
            result: Some(result),
            error: None,
        }
    }

    /// A response carrying a protocol error with no further detail.
    pub fn error(id: Option<Json>, code: i64, message: String) -> (r: Self)
        ensures
            r.jsonrpc@ == JSONRPC_VERSION@,
            r.id == id,
            r.result is None,
            r matches JsonRpcResponse { error: Some(e), .. } ==> e.code == code && e.message
                == message && e.data is None,
            r.error is Some,
            r.wf(),
    {
        JsonRpcResponse {
            jsonrpc: String::from_str(JSONRPC_VERSION),
            id,
            result: None,
            error: Some(JsonRpcError { code, message, data: None }),
        }
    }
}

/// Parameters of the handshake: the client's claimed protocol revision, its
/// capabilities (kept, not interpreted) and, optionally, who it is.
#[derive(Debug)]
pub struct InitializeParams {
    pub protocol_version: String,
    pub capabilities: Json,
    pub client_info: Option<ClientInfo>,
}

/// The client's identity, as it states it in the handshake.
#[derive(Debug)]
pub struct ClientInfo {
    pub name: String,
    pub version: Option<String>,
}

/// The server's answer to the handshake.
#[derive(Debug)]
pub struct InitializeResult {
    pub protocol_version: String,
    pub capabilities: ServerCapabilities,
    pub server_info: ServerInfo,
}

/// What the server advertises that it can do.
#[derive(Debug)]
pub struct ServerCapabilities {
    pub tools: ToolsCapability,
}

/// The tool capability: tools are offered, and whether the server announces
/// changes to their list.
#[derive(Debug)]
pub struct ToolsCapability {
    pub list_changed: bool,
}

/// The server's identity.
#[derive(Debug)]
pub struct ServerInfo {
    pub name: String,
    pub version: String,
}

/// A tool as it is listed: its name, what it does, and the shape of its arguments.
#[derive(Debug)]
pub struct ToolDefinition {
    pub name: String,
    pub description: String,
    pub input_schema: Json,
}

/// The outcome of a tool call. `is_error == Some(true)` marks a failure of the
/// tool itself, which is still a successful response.
#[derive(Debug)]
pub struct ToolResult {
    pub content: Vec<ToolContent>,
    pub is_error: Option<bool>,
}

/// One block of a tool's output.
#[derive(Debug)]
pub struct ToolContent {
    pub content_type: String,
    pub text: String,
}

/// The parameters of `tools/call`: which tool, and its arguments.
#[derive(Debug)]
pub struct ToolCallParams {
    pub name: String,
    pub arguments: Option<Json>,
}

/// `e` is the member `key: v` with `v` a string holding `s`.
pub open spec fn is_str_member(e: (String, Json), key: Seq<char>, s: Seq<char>) -> bool {
    e.0@ == key && is_str(e.1, s)
}

/// `j` is the JSON form of a content block.
pub open spec fn is_content_json(j: Json, c: ToolContent) -> bool {
    match j {
        Json::Object(f) => {
            &&& f@.len() == 2
            &&& is_str_member(f@[0], "type"@, c.content_type@)
            &&& is_str_member(f@[1], "text"@, c.text@)
        },
        _ => false,
    }
}

/// `j` is the JSON form of a tool result: `content` as an array, then
/// `isError` only when the flag is set either way.
pub open spec fn is_tool_result_json(j: Json, t: ToolResult) -> bool {
    match j {
        Json::Object(f) => {
            &&& f@.len() == if t.is_error is Some { 2int } else { 1int }
            &&& f@[0].0@ == "content"@
            &&& match f@[0].1 {
                Json::Array(items) => items@.len() == t.content@.len() && forall|i: int|
                    0 <= i < items@.len() ==> is_content_json(
                        #[trigger] items@[i],
                        t.content@[i],
                    ),
                _ => false,
            }
            &&& match t.is_error {
                Some(b) => f@[1].0@ == "isError"@ && f@[1].1 == Json::Bool(b),
                None => true,
            }
        },
        _ => false,
    }
}

/// `j` is the JSON form of a tool definition.
pub open spec fn is_definition_json(j: Json, d: ToolDefinition) -> bool {
    match j {
        Json::Object(f) => {
            &&& f@.len() == 3
            &&& is_str_member(f@[0], "name"@, d.name@)
            &&& is_str_member(f@[1], "description"@, d.description@)
            &&& f@[2].0@ == "inputSchema"@
            &&& f@[2].1 == d.input_schema
        },
        _ => false,
    }
}

/// `j` is an object whose only member is `key: v`.
pub open spec fn is_single_member(j: Json, key: Seq<char>, v: Json) -> bool {
    match j {
        Json::Object(f) => f@.len() == 1 && f@[0].0@ == key && f@[0].1 == v,
        _ => false,
    }
}

/// `j` is the JSON form of the handshake answer.
pub open spec fn is_initialize_result_json(j: Json, r: InitializeResult) -> bool {
    match j {
        Json::Object(f) => {
            &&& f@.len() == 3
            &&& is_str_member(f@[0], "protocolVersion"@, r.protocol_version@)
            &&& f@[1].0@ == "capabilities"@
            &&& match f@[1].1 {
                Json::Object(c) => c@.len() == 1 && c@[0].0@ == "tools"@ && is_single_member(
                    c@[0].1,
                    "listChanged"@,
                    Json::Bool(r.capabilities.tools.list_changed),
                ),
                _ => false,
            }
            &&& f@[2].0@ == "serverInfo"@
            &&& match f@[2].1 {
                Json::Object(s) => s@.len() == 2 && is_str_member(s@[0], "name"@, r.server_info.name@)
                    && is_str_member(s@[1], "version"@, r.server_info.version@),
                _ => false,
            }
        },
        _ => false,
    }
}

/// The member `key: "s"`.
fn str_member(key: &str, s: String) -> (r: (String, Json))
    ensures
        is_str_member(r, key@, s@),
{
    (String::from_str(key), Json::Str(s))
}

/// Two names, as owned strings.
fn names2(a: &str, b: &str) -> (r: Vec<String>)
    ensures
        r@.len() == 2,
        r@[0]@ == a@,
        r@[1]@ == b@,
{
    let mut v: Vec<String> = Vec::new();
    v.push(String::from_str(a));
    v.push(String::from_str(b));
    v
}

impl ToolContent {
    /// A text block.
    pub fn text(text: String) -> (r: Self)
        ensures
            r.content_type@ == "text"@,
            r.text == text,
    {
        ToolContent { content_type: String::from_str("text"), text }
    }

    /// The JSON form: `{"type": .., "text": ..}`.
    pub fn to_json(&self) -> (r: Json)
        ensures
            is_content_json(r, *self),
    {
        let mut f: Vec<(String, Json)> = Vec::new();
        f.push(str_member("type", self.content_type.clone()));
        f.push(str_member("text", self.text.clone()));
        Json::Object(f)
    }
}

impl ToolResult {
    /// A result holding one text block and no error flag.
    pub fn success(text: String) -> (r: Self)
        ensures
            r.content@.len() == 1,
            r.content@[0].content_type@ == "text"@,
            r.content@[0].text == text,
            r.is_error is None,
    {
        let mut content: Vec<ToolContent> = Vec::new();
        content.push(ToolContent::text(text));
        ToolResult { content, is_error: None }
    }

    /// A tool failure: one text block explaining it, and the error flag set.
    pub fn error(text: String) -> (r: Self)
        ensures
            r.content@.len() == 1,
            r.content@[0].content_type@ == "text"@,
            r.content@[0].text == text,
            r.is_error == Some(true),
    {
        let mut content: Vec<ToolContent> = Vec::new();
        content.push(ToolContent::text(text));
        ToolResult { content, is_error: Some(true) }
    }

    /// The JSON form: `{"content": [..]}`, with `"isError"` only when the flag is set.
    pub fn to_json(&self) -> (r: Json)
        ensures
            is_tool_result_json(r, *self),
    {
        let mut items: Vec<Json> = Vec::new();
        let mut i: usize = 0;
        while i < self.content.len()
            invariant
                i <= self.content@.len(),
                items@.len() == i,
                forall|k: int| 0 <= k < i ==> is_content_json(#[trigger] items@[k], self.content@[k]),
            decreases self.content@.len() - i,
        {
            items.push(self.content[i].to_json());
            i = i + 1;
        }
        let mut f: Vec<(String, Json)> = Vec::new();
        f.push((String::from_str("content"), Json::Array(items)));
        match self.is_error {
            Some(b) => {
                f.push((String::from_str("isError"), Json::Bool(b)));
            },
            None => {},
        }
        Json::Object(f)
    }
}

impl ToolDefinition {
    /// The JSON form: `{"name": .., "description": .., "inputSchema": ..}`.
    pub fn into_json(self) -> (r: Json)
        ensures
            is_definition_json(r, self),
    {
        let mut f: Vec<(String, Json)> = Vec::new();
        f.push(str_member("name", self.name));
        f.push(str_member("description", self.description));
        f.push((String::from_str("inputSchema"), self.input_schema));
        Json::Object(f)
    }
}

impl InitializeResult {
    /// The JSON form: `{"protocolVersion": .., "capabilities": {"tools":
    /// {"listChanged": ..}}, "serverInfo": {"name": .., "version": ..}}`.
    pub fn into_json(self) -> (r: Json)
        ensures
            is_initialize_result_json(r, self),
    {
        let mut listed: Vec<(String, Json)> = Vec::new();
        listed.push((String::from_str("listChanged"), Json::Bool(self.capabilities.tools.list_changed)));
        let mut caps: Vec<(String, Json)> = Vec::new();
        caps.push((String::from_str("tools"), Json::Object(listed)));
        let mut info: Vec<(String, Json)> = Vec::new();
        info.push(str_member("name", self.server_info.name));
        info.push(str_member("version", self.server_info.version));
        let mut f: Vec<(String, Json)> = Vec::new();
        f.push(str_member("protocolVersion", self.protocol_version));
        f.push((String::from_str("capabilities"), Json::Object(caps)));
        f.push((String::from_str("serverInfo"), Json::Object(info)));
        Json::Object(f)
    }
}

impl ToolCallParams {
    /// The parameters that `j` decodes to: an object with a string `name`
    /// and optional `arguments`, where `null` counts as absent.
    pub open spec fn decodes_to(j: Json, p: ToolCallParams) -> bool {
        match j {
            Json::Object(f) => str_field(f@, "name"@) == Some(p.name@) && p.arguments == present(
                field_of(f@, "arguments"@),
            ),
            _ => false,
        }
    }

    /// Whether `j` has the shape of `tools/call` parameters.
    pub open spec fn is_call_params(j: Json) -> bool {
        match j {
            Json::Object(f) => str_field(f@, "name"@) is Some,
            _ => false,
        }
    }

    /// Decodes `tools/call` parameters; fails, with a description, on anything else.
    pub fn from_json(j: Json) -> (r: Result<ToolCallParams, String>)
        ensures
            r is Ok <==> Self::is_call_params(j),
            r matches Ok(p) ==> Self::decodes_to(j, p),
    {
        match j {
            Json::Object(f) => {
                let names = names2("name", "arguments");
                proof {
                    reveal_strlit("name");
                    reveal_strlit("arguments");
                    assert(names@[0]@.len() != names@[1]@.len());
                    assert(forall|i: int, j: int| 0 <= i < j < 2 ==> names@[i]@ != names@[j]@);
                }
                let mut slots = take_fields(f, &names);
                let arguments = take_present(slots.pop().unwrap());
                match take_string(slots.pop().unwrap(), "name") {
                    Ok(name) => Ok(ToolCallParams { name, arguments }),
                    Err(e) => Err(e),
                }
            },
            _ => Err(String::from_str("invalid type: expected an object of tool call parameters")),
        }
    }
}

/// An optional string member: absent or `null`, or a string.
pub open spec fn is_optional_string(o: Option<Json>) -> bool {
    match present(o) {
        None => true,
        Some(v) => string_value(v) is Some,
    }
}

/// Moves an optional string member out of its slot.
fn take_optional_string(slot: Option<Json>, key: &str) -> (r: Result<Option<String>, String>)
    ensures
        r is Ok <==> is_optional_string(slot),
        r matches Ok(o) ==> match o {
            Some(s) => present(slot) matches Some(v) && string_value(v) == Some(s@),
            None => present(slot) is None,
        },
{
    match slot {
        None => Ok(None),
        Some(Json::Null) => Ok(None),
        Some(Json::Str(s)) => Ok(Some(s)),
        Some(_) => Err(String::from_str("invalid type: expected a string for `").concat(key).concat("`")),
    }
}

/// Three names, as owned strings.
fn names3(a: &str, b: &str, c: &str) -> (r: Vec<String>)
    ensures
        r@.len() == 3,
        r@[0]@ == a@,
        r@[1]@ == b@,
        r@[2]@ == c@,
{
    let mut v: Vec<String> = Vec::new();
    v.push(String::from_str(a));
    v.push(String::from_str(b));
    v.push(String::from_str(c));
    v
}

impl ClientInfo {
    /// Whether `j` has the shape of a client identity: a string `name` and,
    /// optionally, a string `version`.
    pub open spec fn is_client_info(j: Json) -> bool {
        match j {
            Json::Object(f) => str_field(f@, "name"@) is Some && is_optional_string(
                field_of(f@, "version"@),
            ),
            _ => false,
        }
    }

    /// The identity that `j` decodes to.
    pub open spec fn decodes_to(j: Json, c: ClientInfo) -> bool {
        match j {
            Json::Object(f) => {
                &&& str_field(f@, "name"@) == Some(c.name@)
                &&& match c.version {
                    Some(v) => present(field_of(f@, "version"@)) matches Some(x) && string_value(x)
                        == Some(v@),
                    None => present(field_of(f@, "version"@)) is None,
                }
            },
            _ => false,
        }
    }

    /// Decodes a client identity; fails, with a description, on anything else.
    pub fn from_json(j: Json) -> (r: Result<ClientInfo, String>)
        ensures
            r is Ok <==> Self::is_client_info(j),
            r matches Ok(c) ==> Self::decodes_to(j, c),
    {
        match j {
            Json::Object(f) => {
                let names = names2("name", "version");
                proof {
                    reveal_strlit("name");
                    reveal_strlit("version");
                    assert(names@[0]@.len() != names@[1]@.len());
                    assert(forall|i: int, j: int| 0 <= i < j < 2 ==> names@[i]@ != names@[j]@);
                }
                let mut slots = take_fields(f, &names);
                let version = take_optional_string(slots.pop().unwrap(), "version");
                let name = take_string(slots.pop().unwrap(), "name");
                match name {
                    Err(e) => Err(e),
                    Ok(name) => match version {
                        Err(e) => Err(e),
                        Ok(version) => Ok(ClientInfo { name, version }),
                    },
                }
            },
            _ => Err(String::from_str("invalid type: expected an object of client information")),
        }
    }
}

impl InitializeParams {
    /// Whether `j` has the shape of handshake parameters: a string
    /// `protocolVersion`, any `capabilities`, and optionally a well-formed
    /// `clientInfo`.
    pub open spec fn is_initialize_params(j: Json) -> bool {
        match j {
            Json::Object(f) => str_field(f@, "protocolVersion"@) is Some && match present(
                field_of(f@, "clientInfo"@),
            ) {
                None => true,
                Some(c) => ClientInfo::is_client_info(c),
            },
            _ => false,
        }
    }

    /// The parameters that `j` decodes to; absent capabilities count as `null`.
    pub open spec fn decodes_to(j: Json, p: InitializeParams) -> bool {
        match j {
            Json::Object(f) => {
                &&& str_field(f@, "protocolVersion"@) == Some(p.protocol_version@)
                &&& p.capabilities == match field_of(f@, "capabilities"@) {
                    Some(v) => v,
                    None => Json::Null,
                }
                &&& match p.client_info {
                    Some(c) => present(field_of(f@, "clientInfo"@)) matches Some(x)
                        && ClientInfo::decodes_to(x, c),
                    None => present(field_of(f@, "clientInfo"@)) is None,
                }
            },
            _ => false,
        }
    }

    /// Decodes handshake parameters; fails, with a description, on anything else.
    pub fn from_json(j: Json) -> (r: Result<InitializeParams, String>)
        ensures
            r is Ok <==> Self::is_initialize_params(j),
            r matches Ok(p) ==> Self::decodes_to(j, p),
    {
        match j {
            Json::Object(f) => {
                let names = names3("protocolVersion", "capabilities", "clientInfo");
                proof {
                    reveal_strlit("protocolVersion");
                    reveal_strlit("capabilities");
                    reveal_strlit("clientInfo");
                    assert(names@[0]@.len() != names@[1]@.len());
                    assert(names@[0]@.len() != names@[2]@.len());
                    assert(names@[1]@.len() != names@[2]@.len());
                    assert(forall|i: int, j: int| 0 <= i < j < 3 ==> names@[i]@ != names@[j]@);
                }
                let mut slots = take_fields(f, &names);
                let client = match take_present(slots.pop().unwrap()) {
                    None => Ok(None),
                    Some(c) => match ClientInfo::from_json(c) {
                        Ok(c) => Ok(Some(c)),
                        Err(e) => Err(e),
                    },
                };
                let capabilities = match slots.pop().unwrap() {
                    Some(v) => v,
                    None => Json::Null,
                };
                let version = take_string(slots.pop().unwrap(), "protocolVersion");
                match version {
                    Err(e) => Err(e),
                    Ok(protocol_version) => match client {
                        Err(e) => Err(e),
                        Ok(client_info) => Ok(InitializeParams { protocol_version, capabilities, client_info }),
                    },
                }
            },
            _ => Err(String::from_str("invalid type: expected an object of handshake parameters")),
        }
    }
}

} // verus!
