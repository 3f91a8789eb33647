use vstd::prelude::*;

use crate::health_check::health_status;
use crate::json::{eq_str, field_of, is_empty_object, present, Json};
use crate::protocol::{
    is_single_member, is_str_member, str_field, InitializeResult, JsonRpcRequest, JsonRpcResponse,
    ServerCapabilities, ServerInfo, ToolCallParams, ToolResult, ToolsCapability, INVALID_PARAMS,
    JSONRPC_VERSION, METHOD_NOT_FOUND, PARSE_ERROR, PROTOCOL_VERSION, SERVER_NAME, SERVER_VERSION,
};
use crate::registry::{
    is_object_schema, is_registered, is_registered_definition, tool_count, tool_description,
    tool_name, ToolRegistry,
};

verus! {

/// `p` is a prefix of `s`.
pub open spec fn has_prefix(s: Seq<char>, p: Seq<char>) -> bool {
    p.len() <= s.len() && s.subrange(0, p.len() as int) == p
}

/// `s` holds `part` somewhere.
pub open spec fn mentions(s: Seq<char>, part: Seq<char>) -> bool {
    exists|i: int| 0 <= i && i + part.len() <= s.len() && #[trigger] s.subrange(i, i + part.len()) == part
}

/// The method names that the dispatcher recognizes.
pub open spec fn is_known_method(m: Seq<char>) -> bool {
    m == "initialize"@ || m == "notifications/initialized"@ || m == "tools/list"@ || m
        == "tools/call"@ || m == "ping"@
}

/// The method named by an envelope.
pub open spec fn method_of(j: Json) -> Seq<char> {
    match j {
        Json::Object(f) => str_field(f@, "method"@).unwrap(),
        _ => Seq::empty(),
    }
}

/// The correlation identifier of an envelope; `null` counts as absent.
pub open spec fn id_of(j: Json) -> Option<Json> {
    match j {
        Json::Object(f) => present(field_of(f@, "id"@)),
        _ => None,
    }
}

/// The parameters of an envelope; `null` counts as absent.
pub open spec fn params_of(j: Json) -> Option<Json> {
    match j {
        Json::Object(f) => present(field_of(f@, "params"@)),
        _ => None,
    }
}

/// The tool that `tools/call` parameters name.
pub open spec fn call_name(p: Json) -> Seq<char> {
    match p {
        Json::Object(f) => str_field(f@, "name"@).unwrap(),
        _ => Seq::empty(),
    }
}

/// `resp` carries the protocol error `code` and exactly `message`.
pub open spec fn is_error_with(resp: JsonRpcResponse, code: i64, message: Seq<char>) -> bool {
    resp.error matches Some(e) && e.code == code && e.message@ == message && e.data is None
}

/// `resp` carries the protocol error `code` with a message that starts with `prefix`.
pub open spec fn is_error_starting(resp: JsonRpcResponse, code: i64, prefix: Seq<char>) -> bool {
    resp.error matches Some(e) && e.code == code && has_prefix(e.message@, prefix)
}

/// `j` is the handshake answer: the server's own protocol revision, tools
/// offered without change notifications, and the server's identity.
pub open spec fn is_handshake_json(j: Json) -> bool {
    match j {
        Json::Object(f) => {
            &&& f@.len() == 3
            &&& is_str_member(f@[0], "protocolVersion"@, PROTOCOL_VERSION@)
            &&& f@[1].0@ == "capabilities"@
            &&& match f@[1].1 {
                Json::Object(c) => c@.len() == 1 && c@[0].0@ == "tools"@ && is_single_member(
                    c@[0].1,
                    "listChanged"@,
                    Json::Bool(false),
                ),
                _ => false,
            }
            &&& f@[2].0@ == "serverInfo"@
            &&& match f@[2].1 {
                Json::Object(s) => s@.len() == 2 && is_str_member(s@[0], "name"@, SERVER_NAME@)
                    && is_str_member(s@[1], "version"@, SERVER_VERSION@),
                _ => false,
            }
        },
        _ => false,
    }
}

/// `j` is the JSON form of the definition of the `i`-th registered tool.
pub open spec fn is_listed_tool_json(j: Json, i: int) -> bool {
    match j {
        Json::Object(f) => {
            &&& f@.len() == 3
            &&& is_str_member(f@[0], "name"@, tool_name(i))
            &&& is_str_member(f@[1], "description"@, tool_description(i))
            &&& f@[2].0@ == "inputSchema"@
            &&& is_object_schema(f@[2].1)
        },
        _ => false,
    }
}

/// `j` is the answer to `tools/list`: `{"tools": [..]}` with every registered
/// tool, in registration order.
pub open spec fn is_tool_list_json(j: Json) -> bool {
    match j {
        Json::Object(f) => {
            &&& f@.len() == 1
            &&& f@[0].0@ == "tools"@
            &&& match f@[0].1 {
                Json::Array(items) => items@.len() == tool_count() && forall|i: int|
                    0 <= i < items@.len() ==> is_listed_tool_json(#[trigger] items@[i], i),
                _ => false,
            }
        },
        _ => false,
    }
}

/// `j` is a tool result with one text block holding `text`, flagged as a
/// tool failure exactly when `failed`.
pub open spec fn is_text_result_json(j: Json, text: Seq<char>, failed: bool) -> bool {
    match j {
        Json::Object(f) => {
            &&& f@.len() == if failed { 2int } else { 1int }
            &&& f@[0].0@ == "content"@
            &&& match f@[0].1 {
                Json::Array(items) => items@.len() == 1 && match items@[0] {
                    Json::Object(c) => c@.len() == 2 && is_str_member(c@[0], "type"@, "text"@)
                        && is_str_member(c@[1], "text"@, text),
                    _ => false,
                },
                _ => false,
            }
            &&& failed ==> f@[1].0@ == "isError"@ && f@[1].1 == Json::Bool(true)
        },
        _ => false,
    }
}

/// `j` is the outcome of calling the tool `name`: its own result when it is
/// registered, otherwise a tool failure that names it.
pub open spec fn is_call_outcome_json(j: Json, name: Seq<char>) -> bool {
    if name == "health_check"@ {
        is_text_result_json(j, health_status(), false)
    } else {
        is_text_result_json(j, "Tool execution error: "@ + ("Unknown tool: "@ + name), true)
    }
}

/// The answer to `tools/call` with `params`: a protocol error when they are
/// missing or malformed, else the tool's outcome as a successful result.
pub open spec fn call_answer(params: Option<Json>, resp: JsonRpcResponse) -> bool {
    match params {
        None => is_error_with(resp, INVALID_PARAMS, "Missing params"@),
        Some(p) => if ToolCallParams::is_call_params(p) {
            resp.result matches Some(j) && is_call_outcome_json(j, call_name(p))
        } else {
            is_error_starting(resp, INVALID_PARAMS, "Invalid tool call params: "@)
        },
    }
}

/// The body of the answer to a request for `method` with `params`.
pub open spec fn answer_body(method: Seq<char>, params: Option<Json>, resp: JsonRpcResponse) -> bool {
    if method == "initialize"@ {
        resp.result matches Some(j) && is_handshake_json(j)
    } else if method == "tools/list"@ {
        resp.result matches Some(j) && is_tool_list_json(j)
    } else if method == "tools/call"@ {
        call_answer(params, resp)
    } else if method == "ping"@ {
        resp.result matches Some(j) && is_empty_object(j)
    } else {
        is_error_with(resp, METHOD_NOT_FOUND, "Method not found: "@ + method)
    }
}

/// What the server answers to a decoded request: nothing to a notification
/// (no identifier, or `notifications/initialized`), else a response that
/// echoes the identifier and carries the method's answer.
pub open spec fn answers(
    method: Seq<char>,
    id: Option<Json>,
    params: Option<Json>,
    r: Option<JsonRpcResponse>,
) -> bool {
    if id is None || method == "notifications/initialized"@ {
        r is None
    } else {
        r matches Some(resp) && resp.jsonrpc@ == JSONRPC_VERSION@ && resp.id == id && resp.wf()
            && answer_body(method, params, resp)
    }
}

/// What the server answers to one message: a parse error with no identifier
/// when the line was no JSON (`Err` holds why) or no envelope, else the
/// answer to the request.
pub open spec fn handles(message: Result<Json, String>, r: Option<JsonRpcResponse>) -> bool {
    match message {
        Err(e) => r matches Some(resp) && resp.jsonrpc@ == JSONRPC_VERSION@ && resp.id is None
            && resp.wf() && is_error_with(resp, PARSE_ERROR, "Parse error: "@ + e@),
        Ok(j) => if JsonRpcRequest::is_envelope(j) {
            answers(method_of(j), id_of(j), params_of(j), r)
        } else {
            r matches Some(resp) && resp.jsonrpc@ == JSONRPC_VERSION@ && resp.id is None
                && resp.wf() && is_error_starting(resp, PARSE_ERROR, "Parse error: "@)
        },
    }
}

proof fn lemma_prefix(p: Seq<char>, s: Seq<char>)
    ensures
        has_prefix(p + s, p),
{
    assert((p + s).subrange(0, p.len() as int) =~= p);
}

/// The protocol engine: decides the answer to each message.
#[derive(Debug)]
pub struct McpServer {
    registry: ToolRegistry,
}

impl McpServer {
    /// A server that offers the tools of `registry`.
    pub fn new(registry: ToolRegistry) -> (r: Self)
        ensures
            r.registry() == registry,
    {
        McpServer { registry }
    }

    /// The registry whose tools the server offers.
    pub closed spec fn registry(&self) -> ToolRegistry {
        self.registry
    }

    /// Answers one message: `Ok` with the parsed JSON value of a line, or
    /// `Err` with why the line was no JSON.
    pub fn handle_message(&self, message: Result<Json, String>) -> (r: Option<JsonRpcResponse>)
        ensures
            handles(message, r),
    {
        match message {
            Err(e) => {
                proof {
                    lemma_prefix("Parse error: "@, e@);
                }
                Some(JsonRpcResponse::error(None, PARSE_ERROR, String::from_str("Parse error: ").concat(e.as_str())))
            },
            Ok(j) => match JsonRpcRequest::from_json(j) {
                Ok(req) => self.handle_request(req),
                Err(e) => {
                    proof {
                        lemma_prefix("Parse error: "@, e@);
                    }
                    Some(JsonRpcResponse::error(None, PARSE_ERROR, String::from_str("Parse error: ").concat(e.as_str())))
                },
            },
        }
    }

    /// Answers one decoded request.
    pub fn handle_request(&self, req: JsonRpcRequest) -> (r: Option<JsonRpcResponse>)
        ensures
            answers(req.method@, req.id, req.params, r),
    {
        let JsonRpcRequest { jsonrpc: _, id, method, params } = req;
        if id.is_none() || eq_str(method.as_str(), "notifications/initialized") {
            return None;
        }
        if eq_str(method.as_str(), "initialize") {
            Some(self.handle_initialize(id, params))
        } else if eq_str(method.as_str(), "tools/list") {
            Some(self.handle_tools_list(id))
        } else if eq_str(method.as_str(), "tools/call") {
            Some(self.handle_tools_call(id, params))
        } else if eq_str(method.as_str(), "ping") {
            Some(JsonRpcResponse::success(id, Json::Object(Vec::new())))
        } else {
            let message = String::from_str("Method not found: ").concat(method.as_str());
            Some(JsonRpcResponse::error(id, METHOD_NOT_FOUND, message))
        }
    }

    /// The handshake: whatever the client claims, and even when its
    /// parameters are malformed, the server answers with its own protocol
    /// revision, capabilities and identity. The parameters are not read.
    pub fn handle_initialize(&self, id: Option<Json>, _params: Option<Json>) -> (r: JsonRpcResponse)
        ensures
            r.jsonrpc@ == JSONRPC_VERSION@,
            r.id == id,
            r.wf(),
            r.result matches Some(j) && is_handshake_json(j),
    {
        let result = InitializeResult {
            protocol_version: String::from_str(PROTOCOL_VERSION),
            capabilities: ServerCapabilities { tools: ToolsCapability { list_changed: false } },
            server_info: ServerInfo {
                name: String::from_str(SERVER_NAME),
                version: String::from_str(SERVER_VERSION),
            },
        };
        JsonRpcResponse::success(id, result.into_json())
    }

    /// The list of every registered tool, under `tools`.
    pub fn handle_tools_list(&self, id: Option<Json>) -> (r: JsonRpcResponse)
        ensures
            r.jsonrpc@ == JSONRPC_VERSION@,
            r.id == id,
            r.wf(),
            r.result matches Some(j) && is_tool_list_json(j),
    {
        let mut tools = self.registry.list_tools();
        let ghost defs = tools@;
        let mut items: Vec<Json> = Vec::new();
        let mut k: usize = 0;
        let n = tools.len();
        while k < n
            invariant
                n == defs.len(),
                k <= n,
                tools@ == defs.subrange(k as int, n as int),
                items@.len() == k,
                forall|i: int|
                    0 <= i < defs.len() ==> is_registered_definition(
                        #[trigger] defs[i],
                        i,
                    ),
                forall|i: int| 0 <= i < k ==> is_listed_tool_json(#[trigger] items@[i], i),
            decreases n - k,
        {
            let d = tools.remove(0);
            proof {
                assert(d == defs[k as int]);
            }
            items.push(d.into_json());
            k = k + 1;
            proof {
                assert(tools@ =~= defs.subrange(k as int, n as int));
            }
        }
        let mut f: Vec<(String, Json)> = Vec::new();
        f.push((String::from_str("tools"), Json::Array(items)));
        JsonRpcResponse::success(id, Json::Object(f))
    }

    /// Calls a tool. Missing or malformed parameters are protocol errors; a
    /// tool that fails, or is not there, gives a successful response whose
    /// result is flagged as a tool failure.
    pub fn handle_tools_call(&self, id: Option<Json>, params: Option<Json>) -> (r: JsonRpcResponse)
        ensures
            r.jsonrpc@ == JSONRPC_VERSION@,
            r.id == id,
            r.wf(),
            call_answer(params, r),
    {
        match params {
            None => JsonRpcResponse::error(id, INVALID_PARAMS, String::from_str("Missing params")),
            Some(p) => match ToolCallParams::from_json(p) {
                Err(e) => {
                    proof {
                        lemma_prefix("Invalid tool call params: "@, e@);
                    }
                    let message = String::from_str("Invalid tool call params: ").concat(e.as_str());
                    JsonRpcResponse::error(id, INVALID_PARAMS, message)
                },
                Ok(call) => {
                    let args = match call.arguments {
                        Some(a) => a,
                        None => Json::Object(Vec::new()),
                    };
                    let outcome = match self.registry.call_tool(call.name.as_str(), args) {
                        Ok(t) => t,
                        Err(e) => ToolResult::error(
                            String::from_str("Tool execution error: ").concat(e.detail().as_str()),
                        ),
                    };
                    let json = outcome.to_json();
                    proof {
                        if call.name@ != "health_check"@ {
                            assert(!is_registered(call.name@));
                        }
                    }
                    JsonRpcResponse::success(id, json)
                },
            },
        }
    }
}

/// The result of a successful answer.
pub open spec fn result_of(r: Option<JsonRpcResponse>) -> Option<Json> {
    match r {
        Some(resp) => if resp.error is None {
            resp.result
        } else {
            None
        },
        None => None,
    }
}

/// An envelope that gets no answer: it has no identifier, or it is the
/// client's `notifications/initialized`.
pub open spec fn is_notification(j: Json) -> bool {
    id_of(j) is None || method_of(j) == "notifications/initialized"@
}

/// The lines that the transport writes for a run of answers, in order: one
/// per response, none for a message that got no answer.
pub open spec fn outputs(rs: Seq<Option<JsonRpcResponse>>) -> Seq<JsonRpcResponse>
    decreases rs.len(),
{
    if rs.len() == 0 {
        Seq::empty()
    } else {
        match rs[0] {
            Some(resp) => seq![resp] + outputs(rs.drop_first()),
            None => outputs(rs.drop_first()),
        }
    }
}

/// The five method names differ from each other.
proof fn lemma_methods_distinct()
    ensures
        "initialize"@ != "notifications/initialized"@,
        "initialize"@ != "tools/list"@,
        "initialize"@ != "tools/call"@,
        "initialize"@ != "ping"@,
        "notifications/initialized"@ != "tools/list"@,
        "notifications/initialized"@ != "tools/call"@,
        "notifications/initialized"@ != "ping"@,
        "tools/list"@ != "tools/call"@,
        "tools/list"@ != "ping"@,
        "tools/call"@ != "ping"@,
{
    reveal_strlit("initialize");
    reveal_strlit("notifications/initialized");
    reveal_strlit("tools/list");
    reveal_strlit("tools/call");
    reveal_strlit("ping");
    assert("initialize"@[0] != "tools/list"@[0]);
    assert("initialize"@[0] != "tools/call"@[0]);
    assert("tools/list"@[6] != "tools/call"@[6]);
    assert("notifications/initialized"@.len() != "ping"@.len());
}

/// Every request that carries an identifier is answered under that same
/// identifier, value and type unchanged.
pub proof fn lemma_identifier_echoed(j: Json, r: Option<JsonRpcResponse>)
    requires
        handles(Ok(j), r),
        JsonRpcRequest::is_envelope(j),
        !is_notification(j),
    ensures
        r matches Some(resp) && resp.id == id_of(j) && id_of(j) is Some,
{
}

/// A request for a method that the server does not know gets the error
/// "method not found", and its message names the method.
pub proof fn lemma_unknown_method(j: Json, r: Option<JsonRpcResponse>)
    requires
        handles(Ok(j), r),
        JsonRpcRequest::is_envelope(j),
        id_of(j) is Some,
        !is_known_method(method_of(j)),
    ensures
        r matches Some(resp) && resp.error matches Some(e) && e.code == METHOD_NOT_FOUND && mentions(
            e.message@,
            method_of(j),
        ),
{
    let m = method_of(j);
    let prefix = "Method not found: "@;
    assert((prefix + m).subrange(prefix.len() as int, (prefix.len() + m.len()) as int) =~= m);
}

/// Calling a tool that is not registered is no protocol fault: the response
/// succeeds, and its result is flagged as a tool failure whose text names
/// the tool.
pub proof fn lemma_unknown_tool_is_data(j: Json, r: Option<JsonRpcResponse>)
    requires
        handles(Ok(j), r),
        JsonRpcRequest::is_envelope(j),
        id_of(j) is Some,
        method_of(j) == "tools/call"@,
        params_of(j) matches Some(p) && ToolCallParams::is_call_params(p) && !is_registered(
            call_name(p),
        ),
    ensures
        result_of(r) matches Some(res) && is_text_result_json(
            res,
            "Tool execution error: "@ + ("Unknown tool: "@ + call_name(params_of(j).unwrap())),
            true,
        ) && mentions(
            "Tool execution error: "@ + ("Unknown tool: "@ + call_name(params_of(j).unwrap())),
            call_name(params_of(j).unwrap()),
        ),
{
    lemma_methods_distinct();
    reveal_strlit("tools/call");
    reveal_strlit("initialize");
    reveal_strlit("notifications/initialized");
    reveal_strlit("tools/list");
    let name = call_name(params_of(j).unwrap());
    assert(tool_name(0) == "health_check"@);
    assert(name != "health_check"@);
    let a = "Tool execution error: "@;
    let b = "Unknown tool: "@;
    let t = a + (b + name);
    assert(t.subrange((a.len() + b.len()) as int, (a.len() + b.len() + name.len()) as int) =~= name);
}

/// The answer to `tools/list` lists every registered tool, in order, each
/// with a non-empty name and description and an object schema.
pub proof fn lemma_listing_well_formed(j: Json, r: Option<JsonRpcResponse>)
    requires
        handles(Ok(j), r),
        JsonRpcRequest::is_envelope(j),
        id_of(j) is Some,
        method_of(j) == "tools/list"@,
    ensures
        result_of(r) matches Some(res) && is_tool_list_json(res),
        forall|i: int| 0 <= i < tool_count() ==> tool_name(i).len() > 0 && tool_description(i).len() > 0,
{
    lemma_methods_distinct();
    reveal_strlit("tools/list");
    reveal_strlit("initialize");
    reveal_strlit("notifications/initialized");
    reveal_strlit("health_check");
    reveal_strlit("Check server health and return version info");
}

/// `ping` answers the same empty object every time, and the handshake gives
/// the same answer every time: answering changes nothing in the server.
pub proof fn lemma_repeatable(
    j1: Json,
    r1: Option<JsonRpcResponse>,
    j2: Json,
    r2: Option<JsonRpcResponse>,
)
    requires
        handles(Ok(j1), r1),
        handles(Ok(j2), r2),
        JsonRpcRequest::is_envelope(j1),
        JsonRpcRequest::is_envelope(j2),
        id_of(j1) is Some,
        id_of(j2) is Some,
        method_of(j1) == method_of(j2),
        method_of(j1) == "ping"@ || method_of(j1) == "initialize"@,
    ensures
        method_of(j1) == "ping"@ ==> (r1 matches Some(a) && a.result matches Some(x)
            && is_empty_object(x)) && (r2 matches Some(b) && b.result matches Some(y)
            && is_empty_object(y)),
        method_of(j1) == "initialize"@ ==> (r1 matches Some(a) && a.result matches Some(x)
            && is_handshake_json(x)) && (r2 matches Some(b) && b.result matches Some(y)
            && is_handshake_json(y)),
{
    lemma_methods_distinct();
    reveal_strlit("ping");
    reveal_strlit("initialize");
    reveal_strlit("notifications/initialized");
    reveal_strlit("tools/list");
    reveal_strlit("tools/call");
}

/// A notification takes no place in the output: after it, two requests are
/// answered by exactly their two responses, in the order they came.
pub proof fn lemma_order_kept(
    j1: Json,
    r1: Option<JsonRpcResponse>,
    j2: Json,
    r2: Option<JsonRpcResponse>,
    j3: Json,
    r3: Option<JsonRpcResponse>,
)
    requires
        handles(Ok(j1), r1),
        handles(Ok(j2), r2),
        handles(Ok(j3), r3),
        JsonRpcRequest::is_envelope(j1),
        JsonRpcRequest::is_envelope(j2),
        JsonRpcRequest::is_envelope(j3),
        is_notification(j1),
        !is_notification(j2),
        !is_notification(j3),
    ensures
        outputs(seq![r1, r2, r3]) == seq![r2.unwrap(), r3.unwrap()],
        r2.unwrap().id == id_of(j2),
        r3.unwrap().id == id_of(j3),
{
    let rs = seq![r1, r2, r3];
    assert(r2 is Some && r3 is Some && r1 is None);
    assert(seq![r3][0] == r3);
    assert(seq![r2, r3][0] == r2);
    assert(rs[0] == r1);
    assert(rs.drop_first() =~= seq![r2, r3]);
    assert(seq![r2, r3].drop_first() =~= seq![r3]);
    assert(seq![r3].drop_first() =~= Seq::<Option<JsonRpcResponse>>::empty());
    let none = Seq::<Option<JsonRpcResponse>>::empty();
    assert(outputs(none) =~= Seq::<JsonRpcResponse>::empty());
    assert(outputs(seq![r3]) == seq![r3.unwrap()] + outputs(none));
    assert(outputs(seq![r3]) =~= seq![r3.unwrap()]);
    assert(outputs(seq![r2, r3]) =~= seq![r2.unwrap(), r3.unwrap()]);
}

} // verus!
