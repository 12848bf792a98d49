//! The messages of the protocol and the descriptors that the server hands out.

use vstd::prelude::*;
use crate::codec::{parse, render};
use crate::json::{item_views, Json, JsonView};
use crate::text::owned;
use crate::trusted::{integer_number, parsed_text, rendered_text};

verus! {

/// The revision of the protocol that the server speaks.
pub const PROTOCOL_VERSION: &'static str = "2024-11-05";

/// The version tag that every response carries.
pub const JSONRPC_VERSION: &'static str = "2.0";

/// The error code for a method that the server does not know.
pub const METHOD_NOT_FOUND: i64 = -32601;

/// The error code for parameters that are missing or have the wrong shape.
pub const INVALID_PARAMS: i64 = -32602;

/// A read-only data source that a client may list or read.
#[derive(Debug, Clone, PartialEq)]
pub struct Resource {
    pub uri: String,
    pub name: String,
    pub description: Option<String>,
    pub mime_type: Option<String>,
}

/// A resource as a mathematical value.
pub struct ResourceView {
    pub uri: Seq<char>,
    pub name: Seq<char>,
    pub description: Option<Seq<char>>,
    pub mime_type: Option<Seq<char>>,
}

/// The text that an optional string holds.
pub open spec fn optional_text(s: Option<String>) -> Option<Seq<char>> {
    match s {
        Some(text) => Some(text@),
        None => None,
    }
}

/// `doc` with the member `key` put in where there is a text for it.
pub open spec fn with_optional_text(
    doc: JsonView,
    key: Seq<char>,
    text: Option<Seq<char>>,
) -> JsonView {
    match text {
        Some(t) => doc.with(key, JsonView::Str(t)),
        None => doc,
    }
}

/// `doc` with the member `key` put in where there is a flag for it.
pub open spec fn with_optional_flag(doc: JsonView, key: Seq<char>, flag: Option<bool>) -> JsonView {
    match flag {
        Some(b) => doc.with(key, JsonView::Bool(b)),
        None => doc,
    }
}

fn put_optional_text(doc: Json, key: &str, text: &Option<String>) -> (out: Json)
    ensures
        out@ == with_optional_text(doc@, key@, optional_text(*text)),
{
    match text {
        Some(t) => doc.with(key, Json::string(t.as_str())),
        None => doc,
    }
}

fn put_optional_flag(doc: Json, key: &str, flag: Option<bool>) -> (out: Json)
    ensures
        out@ == with_optional_flag(doc@, key@, flag),
{
    match flag {
        Some(b) => doc.with(key, Json::Bool(b)),
        None => doc,
    }
}

impl ResourceView {
    /// The descriptor as a document: `uri` and `name`, then `description` and
    /// `mimeType` where they are given.
    pub open spec fn to_json(self) -> JsonView {
        with_optional_text(
            with_optional_text(
                JsonView::empty_object().with("uri"@, JsonView::Str(self.uri)).with(
                    "name"@,
                    JsonView::Str(self.name),
                ),
                "description"@,
                self.description,
            ),
            "mimeType"@,
            self.mime_type,
        )
    }
}

impl View for Resource {
    type V = ResourceView;

    open spec fn view(&self) -> ResourceView {
        ResourceView {
            uri: self.uri@,
            name: self.name@,
            description: optional_text(self.description),
            mime_type: optional_text(self.mime_type),
        }
    }
}

impl Resource {
    /// A resource with all four fields given.
    pub fn new(uri: &str, name: &str, description: &str, mime_type: &str) -> (resource: Resource)
        ensures
            resource@ == (ResourceView {
                uri: uri@,
                name: name@,
                description: Some(description@),
                mime_type: Some(mime_type@),
            }),
    {
        Resource {
            uri: owned(uri),
            name: owned(name),
            description: Some(owned(description)),
            mime_type: Some(owned(mime_type)),
        }
    }

    /// The descriptor as a document.
    pub fn to_json(&self) -> (doc: Json)
        ensures
            doc@ == self@.to_json(),
    {
        let doc = Json::empty_object().with("uri", Json::string(self.uri.as_str())).with(
            "name",
            Json::string(self.name.as_str()),
        );
        let doc = put_optional_text(doc, "description", &self.description);
        put_optional_text(doc, "mimeType", &self.mime_type)
    }
}

/// What the resources denote, in their order.
pub open spec fn resource_views(resources: Seq<Resource>) -> Seq<ResourceView> {
    resources.map_values(|r: Resource| r@)
}

/// No two of `resources` have the same address.
pub open spec fn distinct_uris(resources: Seq<ResourceView>) -> bool {
    forall|i: int, j: int|
        0 <= i < j < resources.len() ==> (#[trigger] resources[i]).uri != (
        #[trigger] resources[j]).uri
}

/// The array of the descriptors of `resources`, in their order.
pub open spec fn resources_json(resources: Seq<ResourceView>) -> JsonView {
    JsonView::Array(resources.map_values(|r: ResourceView| r.to_json()))
}

/// The descriptors of `resources` as an array, in their order.
pub fn resources_to_json(resources: &Vec<Resource>) -> (doc: Json)
    ensures
        doc@ == resources_json(resource_views(resources@)),
{
    let mut items: Vec<Json> = Vec::new();
    let mut i: usize = 0;
    while i < resources.len()
        invariant
            i <= resources@.len(),
            items@.len() == i,
            forall|k: int| 0 <= k < i ==> (#[trigger] items@[k])@ == resources@[k]@.to_json(),
        decreases resources@.len() - i,
    {
        items.push(resources[i].to_json());
        i += 1;
    }
    assert(item_views(items@) =~= resource_views(resources@).map_values(
        |r: ResourceView| r.to_json(),
    ));
    Json::array(items)
}

/// An action that a client may list or call.
#[derive(Debug, Clone, PartialEq)]
pub struct Tool {
    pub name: String,
    pub description: String,
    pub input_schema: Json,
}

/// A tool as a mathematical value.
pub struct ToolView {
    pub name: Seq<char>,
    pub description: Seq<char>,
    pub input_schema: JsonView,
}

impl ToolView {
    /// The descriptor as a document: `name`, `description` and `inputSchema`.
    pub open spec fn to_json(self) -> JsonView {
        JsonView::empty_object().with("name"@, JsonView::Str(self.name)).with(
            "description"@,
            JsonView::Str(self.description),
        ).with("inputSchema"@, self.input_schema)
    }
}

impl View for Tool {
    type V = ToolView;

    open spec fn view(&self) -> ToolView {
        ToolView {
            name: self.name@,
            description: self.description@,
            input_schema: self.input_schema@,
        }
    }
}

impl Tool {
    /// A tool with the given name, description and schema of its arguments.
    pub fn new(name: &str, description: &str, input_schema: Json) -> (tool: Tool)
        ensures
            tool@ == (ToolView {
                name: name@,
                description: description@,
                input_schema: input_schema@,
            }),
    {
        Tool { name: owned(name), description: owned(description), input_schema }
    }

    /// The descriptor as a document.
    pub fn to_json(&self) -> (doc: Json)
        ensures
            doc@ == self@.to_json(),
    {
        Json::empty_object().with("name", Json::string(self.name.as_str())).with(
            "description",
            Json::string(self.description.as_str()),
        ).with("inputSchema", self.input_schema.clone())
    }
}

/// What the tools denote, in their order.
pub open spec fn tool_views(tools: Seq<Tool>) -> Seq<ToolView> {
    tools.map_values(|t: Tool| t@)
}

/// No two of `tools` have the same name.
pub open spec fn distinct_names(tools: Seq<ToolView>) -> bool {
    forall|i: int, j: int|
        0 <= i < j < tools.len() ==> (#[trigger] tools[i]).name != (#[trigger] tools[j]).name
}

/// The array of the descriptors of `tools`, in their order.
pub open spec fn tools_json(tools: Seq<ToolView>) -> JsonView {
    JsonView::Array(tools.map_values(|t: ToolView| t.to_json()))
}

/// The descriptors of `tools` as an array, in their order.
pub fn tools_to_json(tools: &Vec<Tool>) -> (doc: Json)
    ensures
        doc@ == tools_json(tool_views(tools@)),
{
    let mut items: Vec<Json> = Vec::new();
    let mut i: usize = 0;
    while i < tools.len()
        invariant
            i <= tools@.len(),
            items@.len() == i,
            forall|k: int| 0 <= k < i ==> (#[trigger] items@[k])@ == tools@[k]@.to_json(),
        decreases tools@.len() - i,
    {
        items.push(tools[i].to_json());
        i += 1;
    }
    assert(item_views(items@) =~= tool_views(tools@).map_values(|t: ToolView| t.to_json()));
    Json::array(items)
}

/// One request: the identifier that the response must echo, the method, and
/// the parameters where there are any. A request without an identifier has the
/// identifier `null`.
#[derive(Debug, Clone, PartialEq)]
pub struct JsonRpcRequest {
    pub id: Json,
    pub method: String,
    pub params: Option<Json>,
}

/// A request as a mathematical value.
pub struct RequestView {
    pub id: JsonView,
    pub method: Seq<char>,
    pub params: Option<JsonView>,
}

impl View for JsonRpcRequest {
    type V = RequestView;

    open spec fn view(&self) -> RequestView {
        RequestView {
            id: self.id@,
            method: self.method@,
            params: match self.params {
                Some(p) => Some(p@),
                None => None,
            },
        }
    }
}

/// Why a line is no request.
#[derive(Debug, Clone, Copy, PartialEq, Eq, Structural)]
pub enum DecodeError {
    /// The line is no JSON text.
    Syntax,
    /// The line is JSON, but no object.
    NotAnObject,
    /// The object has no member `method`.
    MissingMethod,
    /// The member `method` is no string.
    MethodNotText,
}

/// The request that a document stands for. The document must be an object
/// whose member `method` is a string. The identifier is the member `id`, or
/// `null` where there is none; the parameters are the member `params`, unless
/// it is missing or `null`. Other members are ignored.
pub open spec fn request_of(doc: JsonView) -> Result<RequestView, DecodeError> {
    if !(doc is Object) {
        Err(DecodeError::NotAnObject)
    } else {
        match doc.member("method"@) {
            None => Err(DecodeError::MissingMethod),
            Some(JsonView::Str(method)) => Ok(
                RequestView {
                    id: match doc.member("id"@) {
                        Some(id) => id,
                        None => JsonView::Null,
                    },
                    method,
                    params: match doc.member("params"@) {
                        None => None,
                        Some(JsonView::Null) => None,
                        Some(p) => Some(p),
                    },
                },
            ),
            Some(_) => Err(DecodeError::MethodNotText),
        }
    }
}

/// The request that a line of text stands for.
pub open spec fn decoded(line: Seq<char>) -> Result<RequestView, DecodeError> {
    match parsed_text(line) {
        None => Err(DecodeError::Syntax),
        Some(doc) => request_of(doc),
    }
}

/// Whether `r` is the outcome `expected` of decoding.
pub open spec fn decodes_to(
    r: Result<JsonRpcRequest, DecodeError>,
    expected: Result<RequestView, DecodeError>,
) -> bool {
    match expected {
        Ok(request) => r is Ok && r->Ok_0@ == request,
        Err(e) => r is Err && r->Err_0 == e,
    }
}

impl JsonRpcRequest {
    /// The request that a document stands for.
    pub fn from_json(doc: &Json) -> (r: Result<JsonRpcRequest, DecodeError>)
        ensures
            decodes_to(r, request_of(doc@)),
    {
        if !doc.is_object() {
            return Err(DecodeError::NotAnObject);
        }
        let method = match doc.get("method") {
            None => {
                return Err(DecodeError::MissingMethod);
            },
            Some(m) => match m.as_str() {
                None => {
                    return Err(DecodeError::MethodNotText);
                },
                Some(text) => owned(text),
            },
        };
        let id = match doc.get("id") {
            Some(id) => id.clone(),
            None => Json::Null,
        };
        let params = match doc.get("params") {
            None => None,
            Some(p) => if p.is_null() {
                None
            } else {
                Some(p.clone())
            },
        };
        Ok(JsonRpcRequest { id, method, params })
    }

    /// The request that a line of text stands for.
    pub fn decode(line: &str) -> (r: Result<JsonRpcRequest, DecodeError>)
        ensures
            decodes_to(r, decoded(line@)),
    {
        match parse(line) {
            Err(_) => Err(DecodeError::Syntax),
            Ok(doc) => JsonRpcRequest::from_json(&doc),
        }
    }
}

/// A member that is none of `id`, `method` and `params` makes no difference to
/// the request that an object stands for.
pub proof fn lemma_request_ignores_other_members(doc: JsonView, key: Seq<char>, value: JsonView)
    requires
        doc is Object,
        key != "id"@,
        key != "method"@,
        key != "params"@,
    ensures
        request_of(doc.with(key, value)) == request_of(doc),
{
}

/// The error that a response reports.
#[derive(Debug, Clone, PartialEq)]
pub struct JsonRpcError {
    pub code: i64,
    pub message: String,
}

/// What a response carries besides the identifier: a result, or an error.
#[derive(Debug, Clone, PartialEq)]
pub enum Outcome {
    Success(Json),
    Failure(JsonRpcError),
}

/// One response: the identifier of the request, and either a result or an
/// error, never both.
#[derive(Debug, Clone, PartialEq)]
pub struct JsonRpcResponse {
    pub id: Json,
    pub outcome: Outcome,
}

/// A response as a mathematical value.
pub enum ResponseView {
    Success { id: JsonView, result: JsonView },
    Failure { id: JsonView, code: i64, message: Seq<char> },
}

impl ResponseView {
    /// The identifier that the response carries.
    pub open spec fn id(self) -> JsonView {
        match self {
            ResponseView::Success { id, .. } => id,
            ResponseView::Failure { id, .. } => id,
        }
    }

    /// The response as a document: the version tag and the identifier, then
    /// `result`, or `error` with its `code` and `message`.
    pub open spec fn to_json(self) -> JsonView {
        let head = JsonView::empty_object().with("jsonrpc"@, JsonView::Str(JSONRPC_VERSION@)).with(
            "id"@,
            self.id(),
        );
        match self {
            ResponseView::Success { result, .. } => head.with("result"@, result),
            ResponseView::Failure { code, message, .. } => head.with(
                "error"@,
                JsonView::empty_object().with(
                    "code"@,
                    JsonView::Number(integer_number(code)),
                ).with("message"@, JsonView::Str(message)),
            ),
        }
    }

    /// The line of text that the response is sent as.
    pub open spec fn encoded(self) -> Seq<char> {
        rendered_text(self.to_json())
    }
}

/// A response is written with `result` or with `error`, never with both, and
/// always with the identifier under `id`.
pub proof fn lemma_response_has_result_or_error(response: ResponseView)
    ensures
        response.to_json().member("id"@) == Some(response.id()),
        response is Success ==> response.to_json().member("result"@) == Some(
            response->result,
        ) && response.to_json().member("error"@) is None,
        response is Failure ==> response.to_json().member("error"@) is Some
            && response.to_json().member("result"@) is None,
{
    reveal_strlit("jsonrpc");
    reveal_strlit("id");
    reveal_strlit("result");
    reveal_strlit("error");
    assert("jsonrpc"@.len() == 7);
    assert("id"@.len() == 2);
    assert("result"@.len() == 6);
    assert("error"@.len() == 5);
}

impl View for JsonRpcResponse {
    type V = ResponseView;

    open spec fn view(&self) -> ResponseView {
        match self.outcome {
            Outcome::Success(result) => ResponseView::Success { id: self.id@, result: result@ },
            Outcome::Failure(error) => ResponseView::Failure {
                id: self.id@,
                code: error.code,
                message: error.message@,
            },
        }
    }
}

impl JsonRpcResponse {
    /// The response that carries a result.
    pub fn success(id: Json, result: Json) -> (response: JsonRpcResponse)
        ensures
            response@ == (ResponseView::Success { id: id@, result: result@ }),
    {
        JsonRpcResponse { id, outcome: Outcome::Success(result) }
    }

    /// The response that reports an error.
    pub fn error(id: Json, code: i64, message: String) -> (response: JsonRpcResponse)
        ensures
            response@ == (ResponseView::Failure { id: id@, code, message: message@ }),
    {
        JsonRpcResponse { id, outcome: Outcome::Failure(JsonRpcError { code, message }) }
    }

    /// Whether the response carries a result.
    pub fn is_success(&self) -> (yes: bool)
        ensures
            yes == (self@ is Success),
    {
        match &self.outcome {
            Outcome::Success(_) => true,
            Outcome::Failure(_) => false,
        }
    }

    /// The response as a document.
    pub fn to_json(&self) -> (doc: Json)
        ensures
            doc@ == self@.to_json(),
    {
        let head = Json::empty_object().with("jsonrpc", Json::string(JSONRPC_VERSION)).with(
            "id",
            self.id.clone(),
        );
        match &self.outcome {
            Outcome::Success(result) => head.with("result", result.clone()),
            Outcome::Failure(error) => head.with(
                "error",
                Json::empty_object().with("code", Json::integer(error.code)).with(
                    "message",
                    Json::string(error.message.as_str()),
                ),
            ),
        }
    }

    /// The line of text that the response is sent as, without the line feed
    /// that ends it. The text itself holds no line feed.
    pub fn encode(&self) -> (line: String)
        ensures
            line@ == self@.encoded(),
            !line@.contains('\n'),
    {
        render(&self.to_json())
    }
}

/// What a server can do with its resources.
#[derive(Debug, Clone, Copy, PartialEq, Eq, Structural)]
pub struct ResourceCapabilities {
    pub subscribe: Option<bool>,
    pub list_changed: Option<bool>,
}

impl ResourceCapabilities {
    /// The capabilities as a document: `subscribe` and `listChanged`, each
    /// where it is given.
    pub open spec fn json(self) -> JsonView {
        with_optional_flag(
            with_optional_flag(JsonView::empty_object(), "subscribe"@, self.subscribe),
            "listChanged"@,
            self.list_changed,
        )
    }

    /// The capabilities as a document.
    pub fn to_json(&self) -> (doc: Json)
        ensures
            doc@ == self.json(),
    {
        let doc = put_optional_flag(Json::empty_object(), "subscribe", self.subscribe);
        put_optional_flag(doc, "listChanged", self.list_changed)
    }
}

/// What a server can do with a list that it hands out: its tools, or its
/// prompts.
#[derive(Debug, Clone, Copy, PartialEq, Eq, Structural)]
pub struct ListCapabilities {
    pub list_changed: Option<bool>,
}

impl ListCapabilities {
    /// The capabilities as a document: `listChanged`, where it is given.
    pub open spec fn json(self) -> JsonView {
        with_optional_flag(JsonView::empty_object(), "listChanged"@, self.list_changed)
    }

    /// The capabilities as a document.
    pub fn to_json(&self) -> (doc: Json)
        ensures
            doc@ == self.json(),
    {
        put_optional_flag(Json::empty_object(), "listChanged", self.list_changed)
    }
}

/// The features that a server declares when a session starts.
#[derive(Debug, Clone, Copy, PartialEq, Eq, Structural)]
pub struct ServerCapabilities {
    pub resources: Option<ResourceCapabilities>,
    pub tools: Option<ListCapabilities>,
    pub prompts: Option<ListCapabilities>,
}

impl ServerCapabilities {
    /// The capabilities as a document: `resources`, `tools` and `prompts`, each
    /// where it is given.
    pub open spec fn json(self) -> JsonView {
        let doc = JsonView::empty_object();
        let doc = match self.resources {
            Some(r) => doc.with("resources"@, r.json()),
            None => doc,
        };
        let doc = match self.tools {
            Some(t) => doc.with("tools"@, t.json()),
            None => doc,
        };
        match self.prompts {
            Some(p) => doc.with("prompts"@, p.json()),
            None => doc,
        }
    }

    /// The capabilities as a document.
    pub fn to_json(&self) -> (doc: Json)
        ensures
            doc@ == self.json(),
    {
        let doc = Json::empty_object();
        let doc = match &self.resources {
            Some(r) => doc.with("resources", r.to_json()),
            None => doc,
        };
        let doc = match &self.tools {
            Some(t) => doc.with("tools", t.to_json()),
            None => doc,
        };
        match &self.prompts {
            Some(p) => doc.with("prompts", p.to_json()),
            None => doc,
        }
    }
}

/// The name and version by which a server identifies itself.
#[derive(Debug, Clone, PartialEq)]
pub struct ServerInfo {
    pub name: String,
    pub version: String,
}

impl ServerInfo {
    /// The identity as a document: `name` and `version`.
    pub open spec fn json(self) -> JsonView {
        JsonView::empty_object().with("name"@, JsonView::Str(self.name@)).with(
            "version"@,
            JsonView::Str(self.version@),
        )
    }

    /// The identity as a document.
    pub fn to_json(&self) -> (doc: Json)
        ensures
            doc@ == self.json(),
    {
        Json::empty_object().with("name", Json::string(self.name.as_str())).with(
            "version",
            Json::string(self.version.as_str()),
        )
    }
}

/// What a server answers to `initialize`.
#[derive(Debug, Clone, PartialEq)]
pub struct InitializeResult {
    pub protocol_version: String,
    pub capabilities: ServerCapabilities,
    pub server_info: ServerInfo,
}

impl InitializeResult {
    /// The answer as a document: `protocolVersion`, `capabilities` and
    /// `serverInfo`.
    pub open spec fn json(self) -> JsonView {
        JsonView::empty_object().with("protocolVersion"@, JsonView::Str(self.protocol_version@)).with(
            "capabilities"@,
            self.capabilities.json(),
        ).with("serverInfo"@, self.server_info.json())
    }

    /// The answer as a document.
    pub fn to_json(&self) -> (doc: Json)
        ensures
            doc@ == self.json(),
    {
        Json::empty_object().with(
            "protocolVersion",
            Json::string(self.protocol_version.as_str()),
        ).with("capabilities", self.capabilities.to_json()).with(
            "serverInfo",
            self.server_info.to_json(),
        )
    }
}

/// What a resource holds, as handed out by `resources/read`.
#[derive(Debug, Clone, PartialEq)]
pub struct ResourceContents {
    pub uri: String,
    pub mime_type: Option<String>,
    pub text: Option<String>,
    pub blob: Option<String>,
}

impl ResourceContents {
    /// The contents as a document: `uri`, then `mimeType`, `text` and `blob`,
    /// each where it is given.
    pub open spec fn json(self) -> JsonView {
        with_optional_text(
            with_optional_text(
                with_optional_text(
                    JsonView::empty_object().with("uri"@, JsonView::Str(self.uri@)),
                    "mimeType"@,
                    optional_text(self.mime_type),
                ),
                "text"@,
                optional_text(self.text),
            ),
            "blob"@,
            optional_text(self.blob),
        )
    }

    /// The contents as a document.
    pub fn to_json(&self) -> (doc: Json)
        ensures
            doc@ == self.json(),
    {
        let doc = Json::empty_object().with("uri", Json::string(self.uri.as_str()));
        let doc = put_optional_text(doc, "mimeType", &self.mime_type);
        let doc = put_optional_text(doc, "text", &self.text);
        put_optional_text(doc, "blob", &self.blob)
    }
}

/// One block of what a tool hands back.
#[derive(Debug, Clone, PartialEq)]
pub enum ToolContent {
    Text { text: String },
}

impl ToolContent {
    /// The block as a document: its `type`, and for a text its `text`.
    pub open spec fn json(self) -> JsonView {
        match self {
            ToolContent::Text { text } => JsonView::empty_object().with(
                "type"@,
                JsonView::Str("text"@),
            ).with("text"@, JsonView::Str(text@)),
        }
    }

    /// The block as a document.
    pub fn to_json(&self) -> (doc: Json)
        ensures
            doc@ == self.json(),
    {
        match self {
            ToolContent::Text { text } => Json::empty_object().with(
                "type",
                Json::string("text"),
            ).with("text", Json::string(text.as_str())),
        }
    }
}

/// What a call of a tool hands back: its blocks in their order, and whether
/// the call failed.
#[derive(Debug, Clone, PartialEq)]
pub struct CallToolResult {
    pub content: Vec<ToolContent>,
    pub is_error: Option<bool>,
}

impl CallToolResult {
    /// The result as a document: `content`, and `isError` where it is given.
    pub open spec fn json(self) -> JsonView {
        with_optional_flag(
            JsonView::empty_object().with(
                "content"@,
                JsonView::Array(self.content@.map_values(|c: ToolContent| c.json())),
            ),
            "isError"@,
            self.is_error,
        )
    }

    /// The result of a call that went well and handed back one text.
    pub fn text(text: String) -> (result: CallToolResult)
        ensures
            result.content@ == seq![ToolContent::Text { text }],
            result.is_error == Some(false),
    {
        let mut content: Vec<ToolContent> = Vec::new();
        content.push(ToolContent::Text { text });
        CallToolResult { content, is_error: Some(false) }
    }

    /// The result as a document.
    pub fn to_json(&self) -> (doc: Json)
        ensures
            doc@ == self.json(),
    {
        let mut items: Vec<Json> = Vec::new();
        let mut i: usize = 0;
        while i < self.content.len()
            invariant
                i <= self.content@.len(),
                items@.len() == i,
                forall|k: int| 0 <= k < i ==> (#[trigger] items@[k])@ == self.content@[k].json(),
            decreases self.content@.len() - i,
        {
            items.push(self.content[i].to_json());
            i += 1;
        }
        assert(item_views(items@) =~= self.content@.map_values(|c: ToolContent| c.json()));
        let doc = Json::empty_object().with("content", Json::array(items));
        put_optional_flag(doc, "isError", self.is_error)
    }
}

/// The document that reports one text as the outcome of a call that went well.
pub open spec fn text_result_json(text: Seq<char>) -> JsonView {
    JsonView::empty_object().with(
        "content"@,
        JsonView::Array(
            seq![
                JsonView::empty_object().with("type"@, JsonView::Str("text"@)).with(
                    "text"@,
                    JsonView::Str(text),
                ),
            ],
        ),
    ).with("isError"@, JsonView::Bool(false))
}

/// The result of a call that handed back one text is the document that
/// reports that text.
pub proof fn lemma_text_result_json(result: CallToolResult, text: String)
    requires
        result.content@ == seq![ToolContent::Text { text }],
        result.is_error == Some(false),
    ensures
        result.json() == text_result_json(text@),
{
    assert(result.content@.map_values(|c: ToolContent| c.json()) =~= seq![
        (ToolContent::Text { text }).json(),
    ]);
}

/// Which tool a client calls, and with which arguments.
#[derive(Debug, Clone, PartialEq)]
pub struct CallToolParams {
    pub name: String,
    pub arguments: Json,
}

/// A call as a mathematical value: the name of the tool, and the arguments by
/// their keys.
pub struct CallView {
    pub name: Seq<char>,
    pub arguments: Map<Seq<char>, JsonView>,
}

impl View for CallToolParams {
    type V = CallView;

    open spec fn view(&self) -> CallView {
        CallView { name: self.name@, arguments: self.arguments@.members() }
    }
}

/// Why the parameters of `tools/call` are no call.
#[derive(Debug, Clone, Copy, PartialEq, Eq, Structural)]
pub enum ParamsError {
    /// The parameters are no object.
    NotAnObject,
    /// The object has no member `name`.
    MissingName,
    /// The member `name` is no string.
    NameNotText,
    /// The member `arguments` is no object.
    ArgumentsNotObject,
}

impl ParamsError {
    /// The message that reports the error.
    pub open spec fn message(self) -> Seq<char> {
        match self {
            ParamsError::NotAnObject => "Invalid params: expected an object"@,
            ParamsError::MissingName => "Invalid params: missing field `name`"@,
            ParamsError::NameNotText => "Invalid params: field `name` is not a string"@,
            ParamsError::ArgumentsNotObject => "Invalid params: field `arguments` is not an object"@,
        }
    }

    /// The message that reports the error.
    pub fn to_message(&self) -> (text: String)
        ensures
            text@ == self.message(),
    {
        match self {
            ParamsError::NotAnObject => owned("Invalid params: expected an object"),
            ParamsError::MissingName => owned("Invalid params: missing field `name`"),
            ParamsError::NameNotText => owned("Invalid params: field `name` is not a string"),
            ParamsError::ArgumentsNotObject => owned(
                "Invalid params: field `arguments` is not an object",
            ),
        }
    }
}

/// The call that the parameters of `tools/call` stand for. They must be an
/// object whose member `name` is a string; the member `arguments`, where there
/// is one, must be an object, and where there is none the call has no
/// arguments. Other members are ignored.
pub open spec fn call_of(params: JsonView) -> Result<CallView, ParamsError> {
    if !(params is Object) {
        Err(ParamsError::NotAnObject)
    } else {
        match params.member("name"@) {
            None => Err(ParamsError::MissingName),
            Some(JsonView::Str(name)) => match params.member("arguments"@) {
                None => Ok(CallView { name, arguments: Map::empty() }),
                Some(JsonView::Object(arguments)) => Ok(CallView { name, arguments }),
                Some(_) => Err(ParamsError::ArgumentsNotObject),
            },
            Some(_) => Err(ParamsError::NameNotText),
        }
    }
}

/// A member that is neither `name` nor `arguments` makes no difference to
/// the call that an object stands for.
pub proof fn lemma_call_ignores_other_members(params: JsonView, key: Seq<char>, value: JsonView)
    requires
        params is Object,
        key != "name"@,
        key != "arguments"@,
    ensures
        call_of(params.with(key, value)) == call_of(params),
{
}

/// Whether `r` is the outcome `expected` of reading the parameters.
pub open spec fn reads_as(
    r: Result<CallToolParams, ParamsError>,
    expected: Result<CallView, ParamsError>,
) -> bool {
    match expected {
        Ok(call) => r is Ok && r->Ok_0@ == call,
        Err(e) => r is Err && r->Err_0 == e,
    }
}

impl CallToolParams {
    /// The call that the parameters of `tools/call` stand for.
    pub fn from_json(params: &Json) -> (r: Result<CallToolParams, ParamsError>)
        ensures
            reads_as(r, call_of(params@)),
    {
        if !params.is_object() {
            return Err(ParamsError::NotAnObject);
        }
        let name = match params.get("name") {
            None => {
                return Err(ParamsError::MissingName);
            },
            Some(n) => match n.as_str() {
                None => {
                    return Err(ParamsError::NameNotText);
                },
                Some(text) => owned(text),
            },
        };
        let arguments = match params.get("arguments") {
            None => Json::empty_object(),
            Some(a) => if a.is_object() {
                a.clone()
            } else {
                return Err(ParamsError::ArgumentsNotObject);
            },
        };
        Ok(CallToolParams { name, arguments })
    }
}

} // verus!
