//! The Model Context Protocol server's decisions: which JSON-RPC method a
//! request names, what it answers each request with, the errors it answers
//! with, and the protocol version it reports.
//!
//! Reading and writing JSON-RPC messages and calling plugins stand outside
//! this library: a request is handed in, and the server answers it or says
//! which plugin call to make, whose outcome is handed back.
use vstd::prelude::*;
use crate::text::{owned, str_eq};
use crate::json::{
    JsonValue, JsonValueView, copy_json, json_member, json_member_views, json_of_text, json_str_member,
    json_views, lemma_json_member_views, lemma_json_views, member, parse_json,
};

verus! {

/// A JSON-RPC error: its code and message.
pub struct JsonRpcError {
    pub code: i32,
    pub message: String,
}

/// The methods of the protocol that the server knows.
#[derive(PartialEq, Eq, Structural, Debug, Clone, Copy)]
pub enum McpMethod {
    Initialize,
    Initialized,
    ToolsList,
    ToolsCall,
    ResourcesList,
    ResourcesRead,
    PromptsList,
    PromptsGet,
    Ping,
    /// Any other method.
    Unknown,
}

/// The method a request names.
pub open spec fn method_of(name: Seq<char>) -> McpMethod {
    if name == "initialize"@ {
        McpMethod::Initialize
    } else if name == "initialized"@ {
        McpMethod::Initialized
    } else if name == "tools/list"@ {
        McpMethod::ToolsList
    } else if name == "tools/call"@ {
        McpMethod::ToolsCall
    } else if name == "resources/list"@ {
        McpMethod::ResourcesList
    } else if name == "resources/read"@ {
        McpMethod::ResourcesRead
    } else if name == "prompts/list"@ {
        McpMethod::PromptsList
    } else if name == "prompts/get"@ {
        McpMethod::PromptsGet
    } else if name == "ping"@ {
        McpMethod::Ping
    } else {
        McpMethod::Unknown
    }
}

/// The method a request names (see `method_of`).
pub fn classify_method(name: &str) -> (r: McpMethod)
    ensures
        r == method_of(name@),
{
    if str_eq(name, "initialize") {
        McpMethod::Initialize
    } else if str_eq(name, "initialized") {
        McpMethod::Initialized
    } else if str_eq(name, "tools/list") {
        McpMethod::ToolsList
    } else if str_eq(name, "tools/call") {
        McpMethod::ToolsCall
    } else if str_eq(name, "resources/list") {
        McpMethod::ResourcesList
    } else if str_eq(name, "resources/read") {
        McpMethod::ResourcesRead
    } else if str_eq(name, "prompts/list") {
        McpMethod::PromptsList
    } else if str_eq(name, "prompts/get") {
        McpMethod::PromptsGet
    } else if str_eq(name, "ping") {
        McpMethod::Ping
    } else {
        McpMethod::Unknown
    }
}

/// An error with `code` whose message is `prefix` followed by `detail`.
fn error_with(code: i32, prefix: &str, detail: &str) -> (r: JsonRpcError)
    ensures
        r.code == code,
        r.message@ == prefix@ + detail@,
{
    let mut message = owned(prefix);
    message.append(detail);
    JsonRpcError { code, message }
}

/// The answer to a line that is not a JSON-RPC request (code -32700).
pub fn parse_error(detail: &str) -> (r: JsonRpcError)
    ensures
        r.code == -32700,
        r.message@ == "Parse error: "@ + detail@,
{
    error_with(-32700, "Parse error: ", detail)
}

/// The answer to a method the server does not know (code -32601).
pub fn method_not_found(method: &str) -> (r: JsonRpcError)
    ensures
        r.code == -32601,
        r.message@ == "Method not found: "@ + method@,
{
    error_with(-32601, "Method not found: ", method)
}

/// The answer to a request for a prompt: there are none (code -32601).
pub fn prompt_not_found() -> (r: JsonRpcError)
    ensures
        r.code == -32601,
        r.message@ == "Prompt not found"@,
{
    JsonRpcError { code: -32601, message: owned("Prompt not found") }
}

/// The answer to a request that lacks parameter `name` (code -32602).
pub fn missing_parameter(name: &str) -> (r: JsonRpcError)
    ensures
        r.code == -32602,
        r.message@ == "Missing '"@ + name@ + "' parameter"@,
{
    let mut message = owned("Missing '");
    message.append(name);
    message.append("' parameter");
    JsonRpcError { code: -32602, message }
}

/// The answer when a plugin's tool failed (code -32000).
pub fn tool_call_failed(detail: &str) -> (r: JsonRpcError)
    ensures
        r.code == -32000,
        r.message@ == "Tool call failed: "@ + detail@,
{
    error_with(-32000, "Tool call failed: ", detail)
}

/// The answer when a plugin's resource could not be read (code -32000).
pub fn resource_read_failed(detail: &str) -> (r: JsonRpcError)
    ensures
        r.code == -32000,
        r.message@ == "Resource read failed: "@ + detail@,
{
    error_with(-32000, "Resource read failed: ", detail)
}

/// The protocol version the server answers `initialize` with: the one the
/// client asked for, else `2024-11-05`.
pub fn protocol_version(requested: Option<&str>) -> (r: String)
    ensures
        match requested {
            Some(v) => r@ == v@,
            None => r@ == "2024-11-05"@,
        },
{
    match requested {
        Some(v) => owned(v),
        None => owned("2024-11-05"),
    }
}

/// A client session: whether the client has initialized it.
pub struct McpSession {
    initialized: bool,
}

impl McpSession {
    /// Whether the client has sent `initialize`.
    pub closed spec fn is_initialized(self) -> bool {
        self.initialized
    }

    /// A session that the client has not initialized.
    pub fn new() -> (r: Self)
        ensures
            !r.is_initialized(),
    {
        McpSession { initialized: false }
    }

    /// Records a request for `method`: `initialize` initializes the session,
    /// and nothing else changes it.
    pub fn on_request(&mut self, method: McpMethod)
        ensures
            final(self).is_initialized() == (old(self).is_initialized() || method == McpMethod::Initialize),
    {
        if method == McpMethod::Initialize {
            self.initialized = true;
        }
    }

    /// Whether the client has sent `initialize` (executable).
    pub fn initialized(&self) -> (r: bool)
        ensures
            r == self.is_initialized(),
    {
        self.initialized
    }
}

/// A JSON object of one member.
fn object1(k: &str, v: JsonValue) -> (r: JsonValue)
    ensures
        r@ == JsonValueView::Object(seq![(k@, v@)]),
{
    let members = vec![(owned(k), v)];
    proof {
        lemma_json_member_views(members@);
    }
    let r = JsonValue::Object(members);
    assert(json_member_views(members@) =~= seq![(k@, v@)]);
    r
}

/// A JSON object of two members.
fn object2(k1: &str, v1: JsonValue, k2: &str, v2: JsonValue) -> (r: JsonValue)
    ensures
        r@ == JsonValueView::Object(seq![(k1@, v1@), (k2@, v2@)]),
{
    let members = vec![(owned(k1), v1), (owned(k2), v2)];
    proof {
        lemma_json_member_views(members@);
    }
    let r = JsonValue::Object(members);
    assert(json_member_views(members@) =~= seq![(k1@, v1@), (k2@, v2@)]);
    r
}

/// A JSON object of three members.
fn object3(k1: &str, v1: JsonValue, k2: &str, v2: JsonValue, k3: &str, v3: JsonValue) -> (r: JsonValue)
    ensures
        r@ == JsonValueView::Object(seq![(k1@, v1@), (k2@, v2@), (k3@, v3@)]),
{
    let members = vec![(owned(k1), v1), (owned(k2), v2), (owned(k3), v3)];
    proof {
        lemma_json_member_views(members@);
    }
    let r = JsonValue::Object(members);
    assert(json_member_views(members@) =~= seq![(k1@, v1@), (k2@, v2@), (k3@, v3@)]);
    r
}

/// A JSON array of the given values.
fn array_of(items: Vec<JsonValue>) -> (r: JsonValue)
    ensures
        r@ == JsonValueView::Array(items@.map_values(|v: JsonValue| v@)),
{
    proof {
        lemma_json_views(items@);
    }
    let ghost s = items@;
    let r = JsonValue::Array(items);
    assert(json_views(s) =~= s.map_values(|v: JsonValue| v@));
    r
}

/// What the server answers `initialize` with: the protocol version, its
/// capabilities (tools, resources and prompts, none of which change and no
/// resource subscriptions) and its name and version.
pub open spec fn initialize_result(protocol: Seq<char>, server_version: Seq<char>) -> JsonValueView {
    let no_change = JsonValueView::Object(seq![("listChanged"@, JsonValueView::Bool(false))]);
    JsonValueView::Object(
        seq![
            ("protocolVersion"@, JsonValueView::Str(protocol)),
            ("capabilities"@, JsonValueView::Object(
                seq![
                    ("tools"@, no_change),
                    ("resources"@, JsonValueView::Object(
                        seq![("listChanged"@, JsonValueView::Bool(false)), ("subscribe"@, JsonValueView::Bool(false))],
                    )),
                    ("prompts"@, no_change),
                ],
            )),
            ("serverInfo"@, JsonValueView::Object(
                seq![("name"@, JsonValueView::Str("adi-mcp"@)), ("version"@, JsonValueView::Str(server_version))],
            )),
        ],
    )
}

/// The answer to `initialize` (see `initialize_result`).
fn initialize_value(protocol: String, server_version: &str) -> (r: JsonValue)
    ensures
        r@ == initialize_result(protocol@, server_version@),
{
    let tools = object1("listChanged", JsonValue::Bool(false));
    let resources = object2("listChanged", JsonValue::Bool(false), "subscribe", JsonValue::Bool(false));
    let prompts = object1("listChanged", JsonValue::Bool(false));
    let capabilities = object3("tools", tools, "resources", resources, "prompts", prompts);
    let info = object2("name", JsonValue::Str(owned("adi-mcp")), "version", JsonValue::Str(owned(server_version)));
    object3("protocolVersion", JsonValue::Str(protocol), "capabilities", capabilities, "serverInfo", info)
}

/// An answer to a request: its id, and its result or error.
pub struct McpResponse {
    pub id: JsonValue,
    pub outcome: Result<JsonValue, JsonRpcError>,
}

/// An answer's outcome in the abstract: the result, or the error's code and
/// message.
pub open spec fn outcome_view(o: Result<JsonValue, JsonRpcError>) -> Result<JsonValueView, (i32, Seq<char>)> {
    match o {
        Ok(v) => Ok(v@),
        Err(e) => Err((e.code, e.message@)),
    }
}

/// What the server does with a request.
pub enum McpAction {
    /// Send this answer.
    Respond(McpResponse),
    /// Ask the plugins for their tools, then answer with `tools_list_response`.
    ListTools { id: JsonValue },
    /// Call plugin tool `name` with `arguments`, then answer with
    /// `tools_call_response`.
    CallTool { id: JsonValue, name: String, arguments: JsonValue },
    /// Ask the plugins for their resources, then answer with
    /// `resources_list_response`.
    ListResources { id: JsonValue },
    /// Read resource `uri`, then answer with `resources_read_response`.
    ReadResource { id: JsonValue, uri: String },
}

/// Whether `a` answers request `id` with `outcome`.
pub open spec fn responds(a: McpAction, id: JsonValueView, outcome: Result<JsonValueView, (i32, Seq<char>)>) -> bool {
    a matches McpAction::Respond(r) && r.id@ == id && outcome_view(r.outcome) == outcome
}

/// What the server does with a request for `method` with `params` and
/// `id`, as `server_version`: initializing answers with the version the
/// client asks for (`protocolVersion`, else `2024-11-05`); a tool call
/// needs a string `name` (its `arguments`, `{}` by default, are passed on);
/// a resource read needs a string `uri`; prompts are listed as none and
/// found never; an unknown method is answered with an error.
pub open spec fn request_action(
    a: McpAction,
    id: JsonValueView,
    method: Seq<char>,
    params: JsonValueView,
    server_version: Seq<char>,
) -> bool {
    let empty = JsonValueView::Object(Seq::empty());
    match method_of(method) {
        McpMethod::Initialize => responds(
            a,
            id,
            Ok(
                initialize_result(
                    match json_str_member(params, "protocolVersion"@) {
                        Some(v) => v,
                        None => "2024-11-05"@,
                    },
                    server_version,
                ),
            ),
        ),
        McpMethod::Initialized => responds(a, id, Ok(JsonValueView::Null)),
        McpMethod::ToolsList => a matches McpAction::ListTools { id: i } && i@ == id,
        McpMethod::ToolsCall => match json_str_member(params, "name"@) {
            None => responds(a, id, Err((-32602i32, "Missing 'name' parameter"@))),
            Some(n) => a matches McpAction::CallTool { id: i, name, arguments } && i@ == id && name@ == n
                && arguments@ == (match json_member(params, "arguments"@) {
                Some(v) => v,
                None => empty,
            }),
        },
        McpMethod::ResourcesList => a matches McpAction::ListResources { id: i } && i@ == id,
        McpMethod::ResourcesRead => match json_str_member(params, "uri"@) {
            None => responds(a, id, Err((-32602i32, "Missing 'uri' parameter"@))),
            Some(u) => a matches McpAction::ReadResource { id: i, uri } && i@ == id && uri@ == u,
        },
        McpMethod::PromptsList => responds(
            a,
            id,
            Ok(JsonValueView::Object(seq![("prompts"@, JsonValueView::Array(Seq::empty()))])),
        ),
        McpMethod::PromptsGet => responds(a, id, Err((-32601i32, "Prompt not found"@))),
        McpMethod::Ping => responds(a, id, Ok(empty)),
        McpMethod::Unknown => responds(a, id, Err((-32601i32, "Method not found: "@ + method))),
    }
}

/// Respond to request `id` with `outcome`.
fn respond(id: JsonValue, outcome: Result<JsonValue, JsonRpcError>) -> (a: McpAction)
    ensures
        responds(a, id@, outcome_view(outcome)),
{
    McpAction::Respond(McpResponse { id, outcome })
}

impl McpSession {
    /// Handles a request for `method` with `params` and `id` (see
    /// `request_action`); `initialize` initializes the session.
    pub fn on_json_request(&mut self, id: JsonValue, method: &str, params: &JsonValue, server_version: &str) -> (a: McpAction)
        ensures
            request_action(a, id@, method@, params@, server_version@),
            final(self).is_initialized() == (old(self).is_initialized() || method_of(method@) == McpMethod::Initialize),
    {
        proof {
            reveal_strlit("protocolVersion");
            reveal_strlit("name");
            reveal_strlit("arguments");
            reveal_strlit("uri");
            reveal_strlit("prompts");
            reveal_strlit("Prompt not found");
        }
        let m = classify_method(method);
        self.on_request(m);
        match m {
            McpMethod::Initialize => {
                let requested = match member(params, "protocolVersion") {
                    Some(JsonValue::Str(v)) => Some(v.as_str()),
                    _ => None,
                };
                let v = protocol_version(requested);
                respond(id, Ok(initialize_value(v, server_version)))
            },
            McpMethod::Initialized => respond(id, Ok(JsonValue::Null)),
            McpMethod::ToolsList => McpAction::ListTools { id },
            McpMethod::ToolsCall => match member(params, "name") {
                Some(JsonValue::Str(n)) => {
                    let arguments = match member(params, "arguments") {
                        Some(a) => copy_json(a),
                        None => {
                            let e = JsonValue::Object(Vec::new());
                            assert(json_member_views(Seq::<(String, JsonValue)>::empty()) =~= Seq::empty());
                            e
                        },
                    };
                    McpAction::CallTool { id, name: n.clone(), arguments }
                },
                _ => {
                    proof {
                        reveal_strlit("Missing '");
                        reveal_strlit("' parameter");
                        reveal_strlit("Missing 'name' parameter");
                        assert("Missing '"@ + "name"@ + "' parameter"@ =~= "Missing 'name' parameter"@);
                    }
                    respond(id, Err(missing_parameter("name")))
                },
            },
            McpMethod::ResourcesList => McpAction::ListResources { id },
            McpMethod::ResourcesRead => match member(params, "uri") {
                Some(JsonValue::Str(u)) => McpAction::ReadResource { id, uri: u.clone() },
                _ => {
                    proof {
                        reveal_strlit("Missing '");
                        reveal_strlit("' parameter");
                        reveal_strlit("Missing 'uri' parameter");
                        assert("Missing '"@ + "uri"@ + "' parameter"@ =~= "Missing 'uri' parameter"@);
                    }
                    respond(id, Err(missing_parameter("uri")))
                },
            },
            McpMethod::PromptsList => {
                let none = array_of(Vec::new());
                assert(Seq::<JsonValue>::empty().map_values(|v: JsonValue| v@) =~= Seq::<JsonValueView>::empty());
                respond(id, Ok(object1("prompts", none)))
            },
            McpMethod::PromptsGet => respond(id, Err(prompt_not_found())),
            McpMethod::Ping => {
                let e = JsonValue::Object(Vec::new());
                assert(json_member_views(Seq::<(String, JsonValue)>::empty()) =~= Seq::empty());
                respond(id, Ok(e))
            },
            McpMethod::Unknown => respond(id, Err(method_not_found(method))),
        }
    }
}

/// The JSON that `text` holds, or `fallback` when it is not JSON.
pub open spec fn json_or(text: Seq<char>, fallback: JsonValueView) -> JsonValueView {
    match json_of_text(text) {
        Ok(v) => v,
        Err(_) => fallback,
    }
}

/// The JSON that `text` holds, or `fallback` (see `json_or`).
fn parse_json_or(text: &str, fallback: JsonValue) -> (r: JsonValue)
    ensures
        r@ == json_or(text@, fallback@),
{
    match parse_json(text) {
        Ok(v) => v,
        Err(_) => fallback,
    }
}

/// The answer to a listing of tools or resources (`key` is `tools` or
/// `resources`): the listing the plugins gave, read as JSON (an empty list
/// when it is not JSON, or when the plugins gave none).
pub open spec fn listing_result(key: Seq<char>, listed: Result<Seq<char>, Seq<char>>) -> JsonValueView {
    let empty = JsonValueView::Array(Seq::empty());
    JsonValueView::Object(
        seq![
            (key, match listed {
                Ok(t) => json_or(t, empty),
                Err(_) => empty,
            }),
        ],
    )
}

/// The answer to a listing, told what the plugins gave (see
/// `listing_result`).
fn listing_response(id: JsonValue, key: &str, listed: Result<String, String>) -> (r: McpResponse)
    ensures
        r.id@ == id@,
        outcome_view(r.outcome) == Ok::<JsonValueView, (i32, Seq<char>)>(
            listing_result(
                key@,
                match listed {
                    Ok(t) => Ok(t@),
                    Err(e) => Err(e@),
                },
            ),
        ),
{
    let empty = array_of(Vec::new());
    assert(Seq::<JsonValue>::empty().map_values(|v: JsonValue| v@) =~= Seq::<JsonValueView>::empty());
    let v = match listed {
        Ok(t) => parse_json_or(t.as_str(), empty),
        Err(_) => empty,
    };
    McpResponse { id, outcome: Ok(object1(key, v)) }
}

/// The answer to `tools/list`, told what the plugins listed (see
/// `listing_result`).
pub fn tools_list_response(id: JsonValue, listed: Result<String, String>) -> (r: McpResponse)
    ensures
        r.id@ == id@,
        outcome_view(r.outcome) == Ok::<JsonValueView, (i32, Seq<char>)>(
            listing_result(
                "tools"@,
                match listed {
                    Ok(t) => Ok(t@),
                    Err(e) => Err(e@),
                },
            ),
        ),
{
    listing_response(id, "tools", listed)
}

/// The answer to `resources/list`, told what the plugins listed (see
/// `listing_result`).
pub fn resources_list_response(id: JsonValue, listed: Result<String, String>) -> (r: McpResponse)
    ensures
        r.id@ == id@,
        outcome_view(r.outcome) == Ok::<JsonValueView, (i32, Seq<char>)>(
            listing_result(
                "resources"@,
                match listed {
                    Ok(t) => Ok(t@),
                    Err(e) => Err(e@),
                },
            ),
        ),
{
    listing_response(id, "resources", listed)
}

/// The answer to `tools/call`, told the tool's outcome: its result read as
/// JSON (else `{"content": <result>}`), or a failure with the tool's error.
pub fn tools_call_response(id: JsonValue, outcome: Result<String, String>) -> (r: McpResponse)
    ensures
        r.id@ == id@,
        outcome_view(r.outcome) == (match outcome {
            Ok(t) => Ok(json_or(t@, JsonValueView::Object(seq![("content"@, JsonValueView::Str(t@))]))),
            Err(e) => Err((-32000i32, "Tool call failed: "@ + e@)),
        }),
{
    match outcome {
        Ok(t) => {
            let fallback = object1("content", JsonValue::Str(t.clone()));
            McpResponse { id, outcome: Ok(parse_json_or(t.as_str(), fallback)) }
        },
        Err(e) => McpResponse { id, outcome: Err(tool_call_failed(e.as_str())) },
    }
}

/// The answer to `resources/read` for `uri`, told the read's outcome: the
/// content read as JSON (else `{"uri": <uri>, "text": <content>}`) as the
/// only entry of `contents`, or a failure with the error.
pub fn resources_read_response(id: JsonValue, uri: &str, outcome: Result<String, String>) -> (r: McpResponse)
    ensures
        r.id@ == id@,
        outcome_view(r.outcome) == (match outcome {
            Ok(c) => Ok(
                JsonValueView::Object(
                    seq![
                        ("contents"@, JsonValueView::Array(
                            seq![json_or(c@, JsonValueView::Object(
                                seq![("uri"@, JsonValueView::Str(uri@)), ("text"@, JsonValueView::Str(c@))],
                            ))],
                        )),
                    ],
                ),
            ),
            Err(e) => Err((-32000i32, "Resource read failed: "@ + e@)),
        }),
{
    match outcome {
        Ok(c) => {
            let fallback = object2("uri", JsonValue::Str(owned(uri)), "text", JsonValue::Str(c.clone()));
            let content = parse_json_or(c.as_str(), fallback);
            let ghost cv = content@;
            let items = vec![content];
            assert(items@.len() == 1 && items@[0]@ == cv);
            assert(items@.map_values(|v: JsonValue| v@) =~= seq![cv]);
            let contents = array_of(items);
            McpResponse { id, outcome: Ok(object1("contents", contents)) }
        },
        Err(e) => McpResponse { id, outcome: Err(resource_read_failed(e.as_str())) },
    }
}

} // verus!
