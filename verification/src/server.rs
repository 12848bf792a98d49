//! The server: its two registries, the flag of the handshake, and the
//! dispatcher that answers one request at a time.

use vstd::prelude::*;
use crate::codec::render;
use crate::executor::{execute, tool_output};
use crate::json::{lemma_array_view, Json, JsonView};
use crate::protocol::{
    call_of, decoded, distinct_names, distinct_uris, lemma_text_result_json, resource_views,
    resources_json, resources_to_json, text_result_json, tool_views, tools_json, tools_to_json,
    CallToolParams, CallToolResult, DecodeError, InitializeResult, JsonRpcRequest, JsonRpcResponse,
    ListCapabilities, RequestView, Resource, ResourceCapabilities, ResourceContents, ResourceView,
    ResponseView, ServerCapabilities, ServerInfo, Tool, ToolView, INVALID_PARAMS, METHOD_NOT_FOUND,
    PROTOCOL_VERSION,
};
use crate::text::{joined, lemma_suffix_occurs, occurs_in, owned, str_eq};
use crate::trusted::rendered_text;

verus! {

/// The name by which the server identifies itself.
pub const SERVER_NAME: &'static str = "avx-mcp";

/// The version by which the server identifies itself.
pub const SERVER_VERSION: &'static str = "0.1.0";

/// The methods of the protocol, and one more for every other name.
#[derive(Debug, Clone, Copy, PartialEq, Eq, Structural)]
pub enum Method {
    Initialize,
    Initialized,
    ResourcesList,
    ResourcesRead,
    ToolsList,
    ToolsCall,
    Unknown,
}

impl Method {
    /// The method that a name stands for.
    pub open spec fn named(name: Seq<char>) -> Method {
        if name == "initialize"@ {
            Method::Initialize
        } else if name == "initialized"@ {
            Method::Initialized
        } else if name == "resources/list"@ {
            Method::ResourcesList
        } else if name == "resources/read"@ {
            Method::ResourcesRead
        } else if name == "tools/list"@ {
            Method::ToolsList
        } else if name == "tools/call"@ {
            Method::ToolsCall
        } else {
            Method::Unknown
        }
    }

    /// The method that a name stands for.
    pub fn of(name: &str) -> (method: Method)
        ensures
            method == Method::named(name@),
    {
        if str_eq(name, "initialize") {
            Method::Initialize
        } else if str_eq(name, "initialized") {
            Method::Initialized
        } else if str_eq(name, "resources/list") {
            Method::ResourcesList
        } else if str_eq(name, "resources/read") {
            Method::ResourcesRead
        } else if str_eq(name, "tools/list") {
            Method::ToolsList
        } else if str_eq(name, "tools/call") {
            Method::ToolsCall
        } else {
            Method::Unknown
        }
    }
}

/// What the server answers to `initialize`: the revision of the protocol, its
/// capabilities, and its name and version. The server neither takes
/// subscriptions nor tells of changes to its lists.
pub open spec fn initialize_json() -> JsonView {
    JsonView::empty_object().with("protocolVersion"@, JsonView::Str(PROTOCOL_VERSION@)).with(
        "capabilities"@,
        JsonView::empty_object().with(
            "resources"@,
            JsonView::empty_object().with("subscribe"@, JsonView::Bool(false)).with(
                "listChanged"@,
                JsonView::Bool(false),
            ),
        ).with("tools"@, JsonView::empty_object().with("listChanged"@, JsonView::Bool(false))),
    ).with(
        "serverInfo"@,
        JsonView::empty_object().with("name"@, JsonView::Str(SERVER_NAME@)).with(
            "version"@,
            JsonView::Str(SERVER_VERSION@),
        ),
    )
}

/// The address that `resources/read` is asked for: the string member `uri` of
/// the parameters, or the empty text where there is none.
pub open spec fn requested_uri(params: Option<JsonView>) -> Seq<char> {
    match params {
        Some(p) => p.text_member_or("uri"@, ""@),
        None => ""@,
    }
}

/// What the server hands out as the state of the resource at `uri`.
pub open spec fn status_json(uri: Seq<char>) -> JsonView {
    JsonView::empty_object().with("status"@, JsonView::Str("ok"@)).with("uri"@, JsonView::Str(uri))
}

/// What the server answers to `resources/read` for `uri`: one block of
/// contents, whose text is the state of the resource written as JSON.
pub open spec fn read_json(uri: Seq<char>) -> JsonView {
    JsonView::empty_object().with(
        "contents"@,
        JsonView::Array(
            seq![
                JsonView::empty_object().with("uri"@, JsonView::Str(uri)).with(
                    "mimeType"@,
                    JsonView::Str("application/json"@),
                ).with("text"@, JsonView::Str(rendered_text(status_json(uri)))),
            ],
        ),
    )
}

/// The state of a server as a mathematical value: whether the client has
/// completed the handshake, and the two registries in the order of
/// registration.
pub struct ServerView {
    pub initialized: bool,
    pub resources: Seq<ResourceView>,
    pub tools: Seq<ToolView>,
}

impl ServerView {
    /// A server before the handshake, with nothing registered.
    pub open spec fn new() -> ServerView {
        ServerView { initialized: false, resources: Seq::empty(), tools: Seq::empty() }
    }

    /// The server with one more resource, after those it has.
    pub open spec fn with_resource(self, resource: ResourceView) -> ServerView {
        ServerView { resources: self.resources.push(resource), ..self }
    }

    /// The server with one more tool, after those it has.
    pub open spec fn with_tool(self, tool: ToolView) -> ServerView {
        ServerView { tools: self.tools.push(tool), ..self }
    }

    /// The server with each of `resources` registered in turn.
    pub open spec fn with_resources(self, resources: Seq<ResourceView>) -> ServerView
        decreases resources.len(),
    {
        if resources.len() == 0 {
            self
        } else {
            self.with_resources(resources.drop_last()).with_resource(resources.last())
        }
    }

    /// The server with each of `tools` registered in turn.
    pub open spec fn with_tools(self, tools: Seq<ToolView>) -> ServerView
        decreases tools.len(),
    {
        if tools.len() == 0 {
            self
        } else {
            self.with_tools(tools.drop_last()).with_tool(tools.last())
        }
    }

    /// What the server answers to `tools/call`.
    pub open spec fn call_response(request: RequestView) -> ResponseView {
        match request.params {
            None => ResponseView::Failure {
                id: request.id,
                code: INVALID_PARAMS,
                message: "Missing params"@,
            },
            Some(params) => match call_of(params) {
                Err(e) => ResponseView::Failure {
                    id: request.id,
                    code: INVALID_PARAMS,
                    message: e.message(),
                },
                Ok(call) => ResponseView::Success {
                    id: request.id,
                    result: text_result_json(tool_output(call.name, call.arguments)),
                },
            },
        }
    }

    /// What the server answers to a request. Every method is answered in
    /// every state, and every answer carries the identifier of the request.
    pub open spec fn respond(self, request: RequestView) -> ResponseView {
        match Method::named(request.method) {
            Method::Initialize => ResponseView::Success {
                id: request.id,
                result: initialize_json(),
            },
            Method::Initialized => ResponseView::Success {
                id: request.id,
                result: JsonView::empty_object(),
            },
            Method::ResourcesList => ResponseView::Success {
                id: request.id,
                result: JsonView::empty_object().with("resources"@, resources_json(self.resources)),
            },
            Method::ResourcesRead => ResponseView::Success {
                id: request.id,
                result: read_json(requested_uri(request.params)),
            },
            Method::ToolsList => ResponseView::Success {
                id: request.id,
                result: JsonView::empty_object().with("tools"@, tools_json(self.tools)),
            },
            Method::ToolsCall => ServerView::call_response(request),
            Method::Unknown => ResponseView::Failure {
                id: request.id,
                code: METHOD_NOT_FOUND,
                message: "Method not found: "@ + request.method,
            },
        }
    }

    /// The state of the server after a request: `initialized` completes the
    /// handshake, and nothing else changes anything.
    pub open spec fn advance(self, request: RequestView) -> ServerView {
        if Method::named(request.method) == Method::Initialized {
            ServerView { initialized: true, ..self }
        } else {
            self
        }
    }

    /// What the server sends back for a line of input: the response as a line
    /// of text where the line is a request, and nothing where it is none.
    pub open spec fn reply(self, line: Seq<char>) -> Option<Seq<char>> {
        match decoded(line) {
            Ok(request) => Some(self.respond(request).encoded()),
            Err(_) => None,
        }
    }

    /// The state of the server after a line of input.
    pub open spec fn after_line(self, line: Seq<char>) -> ServerView {
        match decoded(line) {
            Ok(request) => self.advance(request),
            Err(_) => self,
        }
    }

    /// The state of the server after the lines of an input, taken in turn.
    pub open spec fn after_lines(self, lines: Seq<Seq<char>>) -> ServerView
        decreases lines.len(),
    {
        if lines.len() == 0 {
            self
        } else {
            self.after_lines(lines.drop_last()).after_line(lines.last())
        }
    }

    /// What the server sends back for the lines of an input, taken in turn:
    /// one line for each line that is a request, in the order of the
    /// requests, and nothing for the others.
    pub open spec fn replies(self, lines: Seq<Seq<char>>) -> Seq<Seq<char>>
        decreases lines.len(),
    {
        if lines.len() == 0 {
            Seq::empty()
        } else {
            let earlier = self.replies(lines.drop_last());
            match self.after_lines(lines.drop_last()).reply(lines.last()) {
                Some(line) => earlier.push(line),
                None => earlier,
            }
        }
    }
}

/// The texts of `lines`, in their order.
pub open spec fn line_texts(lines: Seq<String>) -> Seq<Seq<char>> {
    lines.map_values(|line: String| line@)
}

/// A protocol server for one client.
pub struct McpServer {
    initialized: bool,
    resources: Vec<Resource>,
    tools: Vec<Tool>,
}

impl View for McpServer {
    type V = ServerView;

    closed spec fn view(&self) -> ServerView {
        ServerView {
            initialized: self.initialized,
            resources: resource_views(self.resources@),
            tools: tool_views(self.tools@),
        }
    }
}

impl McpServer {
    /// A server before the handshake, with nothing registered.
    pub fn new() -> (server: McpServer)
        ensures
            server@ == ServerView::new(),
    {
        let server = McpServer { initialized: false, resources: Vec::new(), tools: Vec::new() };
        assert(resource_views(server.resources@) =~= Seq::empty());
        assert(tool_views(server.tools@) =~= Seq::empty());
        server
    }

    /// Registers a resource after those already registered.
    pub fn register_resource(&mut self, resource: Resource)
        ensures
            final(self)@ == old(self)@.with_resource(resource@),
    {
        self.resources.push(resource);
        assert(resource_views(self.resources@) =~= resource_views(old(self).resources@).push(
            resource@,
        ));
    }

    /// Registers a tool after those already registered.
    pub fn register_tool(&mut self, tool: Tool)
        ensures
            final(self)@ == old(self)@.with_tool(tool@),
    {
        self.tools.push(tool);
        assert(tool_views(self.tools@) =~= tool_views(old(self).tools@).push(tool@));
    }

    /// Whether the client has completed the handshake.
    pub fn is_initialized(&self) -> (yes: bool)
        ensures
            yes == self@.initialized,
    {
        self.initialized
    }

    /// The registered resources, in the order of registration.
    pub fn resources(&self) -> (resources: &Vec<Resource>)
        ensures
            resource_views(resources@) == self@.resources,
    {
        &self.resources
    }

    /// The registered tools, in the order of registration.
    pub fn tools(&self) -> (tools: &Vec<Tool>)
        ensures
            tool_views(tools@) == self@.tools,
    {
        &self.tools
    }

    /// Answers `initialize` with the capabilities of the server. The handshake
    /// is not completed by it.
    pub fn handle_initialize(&mut self, request: JsonRpcRequest) -> (response: JsonRpcResponse)
        ensures
            response@ == (ResponseView::Success { id: request.id@, result: initialize_json() }),
            final(self)@ == old(self)@,
    {
        let result = InitializeResult {
            protocol_version: owned(PROTOCOL_VERSION),
            capabilities: ServerCapabilities {
                resources: Some(
                    ResourceCapabilities { subscribe: Some(false), list_changed: Some(false) },
                ),
                tools: Some(ListCapabilities { list_changed: Some(false) }),
                prompts: None,
            },
            server_info: ServerInfo { name: owned(SERVER_NAME), version: owned(SERVER_VERSION) },
        };
        JsonRpcResponse::success(request.id, result.to_json())
    }

    /// Answers `initialized`, which completes the handshake.
    pub fn handle_initialized(&mut self, request: JsonRpcRequest) -> (response: JsonRpcResponse)
        ensures
            response@ == (ResponseView::Success {
                id: request.id@,
                result: JsonView::empty_object(),
            }),
            final(self)@ == (ServerView { initialized: true, ..old(self)@ }),
    {
        self.initialized = true;
        JsonRpcResponse::success(request.id, Json::empty_object())
    }

    /// Answers `resources/list` with the registered resources, in the order of
    /// registration.
    pub fn handle_resources_list(&self, request: JsonRpcRequest) -> (response: JsonRpcResponse)
        ensures
            response@ == (ResponseView::Success {
                id: request.id@,
                result: JsonView::empty_object().with(
                    "resources"@,
                    resources_json(self@.resources),
                ),
            }),
    {
        let result = Json::empty_object().with("resources", resources_to_json(&self.resources));
        JsonRpcResponse::success(request.id, result)
    }

    /// Answers `resources/read` for the address in the parameters. The address
    /// is not looked up among the registered resources: every address is
    /// answered, with a text that reports it as in order.
    pub fn handle_resources_read(&self, request: JsonRpcRequest) -> (response: JsonRpcResponse)
        ensures
            response@ == (ResponseView::Success {
                id: request.id@,
                result: read_json(requested_uri(request@.params)),
            }),
    {
        let uri = match &request.params {
            Some(p) => p.text_member_or("uri", ""),
            None => owned(""),
        };
        let status = Json::empty_object().with("status", Json::string("ok")).with(
            "uri",
            Json::string(uri.as_str()),
        );
        let contents = ResourceContents {
            uri,
            mime_type: Some(owned("application/json")),
            text: Some(render(&status)),
            blob: None,
        };
        let mut blocks: Vec<Json> = Vec::new();
        blocks.push(contents.to_json());
        proof {
            lemma_array_view(blocks);
            assert(Json::Array(blocks)@->Array_0 =~= seq![contents.json()]);
        }
        let result = Json::empty_object().with("contents", Json::array(blocks));
        JsonRpcResponse::success(request.id, result)
    }

    /// Answers `tools/list` with the registered tools, in the order of
    /// registration.
    pub fn handle_tools_list(&self, request: JsonRpcRequest) -> (response: JsonRpcResponse)
        ensures
            response@ == (ResponseView::Success {
                id: request.id@,
                result: JsonView::empty_object().with("tools"@, tools_json(self@.tools)),
            }),
    {
        let result = Json::empty_object().with("tools", tools_to_json(&self.tools));
        JsonRpcResponse::success(request.id, result)
    }

    /// Answers `tools/call`: runs the tool that the parameters name, and hands
    /// back its text as a result. Parameters that are missing or are no call
    /// are answered with the error for invalid parameters.
    pub fn handle_tools_call(&self, request: JsonRpcRequest) -> (response: JsonRpcResponse)
        ensures
            response@ == ServerView::call_response(request@),
    {
        let call = match &request.params {
            None => {
                return JsonRpcResponse::error(request.id, INVALID_PARAMS, owned("Missing params"));
            },
            Some(p) => match CallToolParams::from_json(p) {
                Err(e) => {
                    return JsonRpcResponse::error(request.id, INVALID_PARAMS, e.to_message());
                },
                Ok(call) => call,
            },
        };
        let text = execute(call.name.as_str(), &call.arguments);
        let result = CallToolResult::text(text);
        proof {
            lemma_text_result_json(result, text);
        }
        JsonRpcResponse::success(request.id, result.to_json())
    }

    /// Answers a request. Every method is answered in every state; a method
    /// that the server does not know is answered with the error for it.
    pub fn handle_request(&mut self, request: JsonRpcRequest) -> (response: JsonRpcResponse)
        ensures
            response@ == old(self)@.respond(request@),
            final(self)@ == old(self)@.advance(request@),
            response@.id() == request@.id,
    {
        match Method::of(request.method.as_str()) {
            Method::Initialize => self.handle_initialize(request),
            Method::Initialized => self.handle_initialized(request),
            Method::ResourcesList => self.handle_resources_list(request),
            Method::ResourcesRead => self.handle_resources_read(request),
            Method::ToolsList => self.handle_tools_list(request),
            Method::ToolsCall => self.handle_tools_call(request),
            Method::Unknown => {
                let message = joined("Method not found: ", request.method.as_str());
                JsonRpcResponse::error(request.id, METHOD_NOT_FOUND, message)
            },
        }
    }

    /// Takes one line of input. Where the line is a request, it is answered,
    /// and the response comes back as a line of text without a line feed.
    /// Where it is none, nothing is sent, the server stays as it is, and the
    /// reason comes back.
    pub fn process_line(&mut self, line: &str) -> (sent: Result<String, DecodeError>)
        ensures
            final(self)@ == old(self)@.after_line(line@),
            match decoded(line@) {
                Ok(request) => sent is Ok && sent->Ok_0@ == old(self)@.respond(request).encoded()
                    && !sent->Ok_0@.contains('\n'),
                Err(e) => sent == Err::<String, DecodeError>(e),
            },
    {
        match JsonRpcRequest::decode(line) {
            Ok(request) => {
                let response = self.handle_request(request);
                Ok(response.encode())
            },
            Err(e) => Err(e),
        }
    }

    /// Serves a session whose input is given as a whole: takes the lines in
    /// turn and hands back what is sent, one line for each line that is a
    /// request.
    pub fn run(&mut self, lines: &Vec<String>) -> (sent: Vec<String>)
        ensures
            line_texts(sent@) == old(self)@.replies(line_texts(lines@)),
            final(self)@ == old(self)@.after_lines(line_texts(lines@)),
            forall|k: int| 0 <= k < sent@.len() ==> !(#[trigger] sent@[k])@.contains('\n'),
    {
        let ghost texts = line_texts(lines@);
        let mut sent: Vec<String> = Vec::new();
        let mut i: usize = 0;
        assert(texts.take(0) =~= Seq::empty());
        assert(line_texts(sent@) =~= Seq::empty());
        while i < lines.len()
            invariant
                i <= lines@.len(),
                texts == line_texts(lines@),
                line_texts(sent@) == old(self)@.replies(texts.take(i as int)),
                self@ == old(self)@.after_lines(texts.take(i as int)),
                forall|k: int| 0 <= k < sent@.len() ==> !(#[trigger] sent@[k])@.contains('\n'),
            decreases lines@.len() - i,
        {
            let ghost earlier = sent@;
            proof {
                assert(texts.take(i + 1).drop_last() =~= texts.take(i as int));
                assert(texts.take(i + 1).last() == lines@[i as int]@);
            }
            match self.process_line(lines[i].as_str()) {
                Ok(line) => {
                    sent.push(line);
                    assert(line_texts(sent@) =~= line_texts(earlier).push(line@));
                },
                Err(_) => {},
            }
            i += 1;
        }
        assert(texts.take(lines@.len() as int) =~= texts);
        sent
    }
}

/// Each name of the protocol stands for its own method.
pub proof fn lemma_method_names()
    ensures
        Method::named("initialize"@) == Method::Initialize,
        Method::named("initialized"@) == Method::Initialized,
        Method::named("resources/list"@) == Method::ResourcesList,
        Method::named("resources/read"@) == Method::ResourcesRead,
        Method::named("tools/list"@) == Method::ToolsList,
        Method::named("tools/call"@) == Method::ToolsCall,
{
    reveal_strlit("initialize");
    reveal_strlit("initialized");
    reveal_strlit("resources/list");
    reveal_strlit("resources/read");
    reveal_strlit("tools/list");
    reveal_strlit("tools/call");
    assert("initialize"@.len() != "initialized"@.len());
    assert("initialize"@[0] != "tools/list"@[0]);
    assert("initialize"@[0] != "tools/call"@[0]);
    assert("tools/list"@[6] != "tools/call"@[6]);
    assert("resources/list"@[10] != "resources/read"@[10]);
}

/// Every response carries the identifier of its request, whatever the method
/// and whatever the state of the server.
pub proof fn lemma_response_echoes_id(server: ServerView, request: RequestView)
    ensures
        server.respond(request).id() == request.id,
{
}

/// A method that is none of the protocol's is answered with the error for an
/// unknown method, and the message holds the name that was asked for.
pub proof fn lemma_unknown_method_is_reported(server: ServerView, request: RequestView)
    requires
        request.method != "initialize"@,
        request.method != "initialized"@,
        request.method != "resources/list"@,
        request.method != "resources/read"@,
        request.method != "tools/list"@,
        request.method != "tools/call"@,
    ensures
        server.respond(request) == (ResponseView::Failure {
            id: request.id,
            code: -32601i64,
            message: "Method not found: "@ + request.method,
        }),
        occurs_in(request.method, server.respond(request)->Failure_message),
        server.advance(request) == server,
{
    lemma_suffix_occurs("Method not found: "@, request.method);
}

/// `tools/call` without parameters, or with parameters that have no string
/// member `name`, is answered with the error for invalid parameters.
pub proof fn lemma_call_without_name_is_rejected(server: ServerView, request: RequestView)
    requires
        request.method == "tools/call"@,
        request.params matches Some(params) ==> !(params.member("name"@) matches Some(
            JsonView::Str(_),
        )),
    ensures
        server.respond(request) is Failure,
        server.respond(request)->Failure_code == -32602i64,
        server.respond(request).id() == request.id,
{
    lemma_method_names();
}

/// Registering keeps what is registered and its order: the resources of a
/// server after `resources` have been registered in turn are those it had,
/// followed by `resources`.
pub proof fn lemma_with_resources(server: ServerView, resources: Seq<ResourceView>)
    ensures
        server.with_resources(resources) == (ServerView {
            resources: server.resources + resources,
            ..server
        }),
    decreases resources.len(),
{
    if resources.len() == 0 {
        assert(server.resources + resources =~= server.resources);
    } else {
        lemma_with_resources(server, resources.drop_last());
        assert((server.resources + resources.drop_last()).push(resources.last())
            =~= server.resources + resources);
    }
}

/// Registering keeps what is registered and its order: the tools of a server
/// after `tools` have been registered in turn are those it had, followed by
/// `tools`.
pub proof fn lemma_with_tools(server: ServerView, tools: Seq<ToolView>)
    ensures
        server.with_tools(tools) == (ServerView { tools: server.tools + tools, ..server }),
    decreases tools.len(),
{
    if tools.len() == 0 {
        assert(server.tools + tools =~= server.tools);
    } else {
        lemma_with_tools(server, tools.drop_last());
        assert((server.tools + tools.drop_last()).push(tools.last()) =~= server.tools + tools);
    }
}

/// Registering a resource whose address no registered resource has keeps the
/// addresses apart.
pub proof fn lemma_new_uri_keeps_uris_distinct(server: ServerView, resource: ResourceView)
    requires
        distinct_uris(server.resources),
        forall|i: int| 0 <= i < server.resources.len() ==> server.resources[i].uri != resource.uri,
    ensures
        distinct_uris(server.with_resource(resource).resources),
{
}

/// Registering a tool whose name no registered tool has keeps the names apart.
pub proof fn lemma_new_name_keeps_names_distinct(server: ServerView, tool: ToolView)
    requires
        distinct_names(server.tools),
        forall|i: int| 0 <= i < server.tools.len() ==> server.tools[i].name != tool.name,
    ensures
        distinct_names(server.with_tool(tool).tools),
{
}

/// A new server on which resources have been registered one after another
/// answers `resources/list` with exactly those resources, as many as were
/// registered and in the order of registration: none is dropped, merged or
/// moved.
pub proof fn lemma_registered_resources_are_listed(
    resources: Seq<ResourceView>,
    request: RequestView,
)
    requires
        request.method == "resources/list"@,
    ensures
        ServerView::new().with_resources(resources).respond(request) == (ResponseView::Success {
            id: request.id,
            result: JsonView::empty_object().with("resources"@, resources_json(resources)),
        }),
        resources_json(resources) is Array,
        resources_json(resources)->Array_0.len() == resources.len(),
        forall|i: int|
            0 <= i < resources.len() ==> (#[trigger] resources_json(resources)->Array_0[i])
                == resources[i].to_json(),
{
    lemma_method_names();
    lemma_with_resources(ServerView::new(), resources);
    assert(ServerView::new().resources + resources =~= resources);
}

/// A new server on which tools have been registered one after another answers
/// `tools/list` with exactly those tools, in the order of registration.
pub proof fn lemma_registered_tools_are_listed(tools: Seq<ToolView>, request: RequestView)
    requires
        request.method == "tools/list"@,
    ensures
        ServerView::new().with_tools(tools).respond(request) == (ResponseView::Success {
            id: request.id,
            result: JsonView::empty_object().with("tools"@, tools_json(tools)),
        }),
        tools_json(tools) is Array,
        tools_json(tools)->Array_0.len() == tools.len(),
        forall|i: int|
            0 <= i < tools.len() ==> (#[trigger] tools_json(tools)->Array_0[i])
                == tools[i].to_json(),
{
    lemma_method_names();
    lemma_with_tools(ServerView::new(), tools);
    assert(ServerView::new().tools + tools =~= tools);
}

/// `initialize` may be asked any number of times: it leaves the server as it
/// is, the flag of the handshake included, and it is answered with the same
/// capabilities every time, in every state.
pub proof fn lemma_initialize_is_idempotent(
    server: ServerView,
    first: RequestView,
    second: RequestView,
)
    requires
        first.method == "initialize"@,
        second.method == "initialize"@,
    ensures
        server.advance(first) == server,
        server.advance(first).initialized == server.initialized,
        server.respond(first) == (ResponseView::Success {
            id: first.id,
            result: initialize_json(),
        }),
        server.advance(first).respond(second) == (ResponseView::Success {
            id: second.id,
            result: initialize_json(),
        }),
{
    lemma_method_names();
}

/// The handshake is completed by `initialized` and by nothing else, and once
/// completed it stays so.
pub proof fn lemma_handshake(server: ServerView, request: RequestView)
    ensures
        server.advance(request).initialized == (server.initialized || request.method
            == "initialized"@),
        server.advance(request).resources == server.resources,
        server.advance(request).tools == server.tools,
{
    lemma_method_names();
    reveal_strlit("initialize");
    reveal_strlit("initialized");
}

/// No answer depends on whether the handshake is completed: every method is
/// answered before it as after it.
pub proof fn lemma_answers_do_not_depend_on_handshake(
    server: ServerView,
    request: RequestView,
    initialized: bool,
)
    ensures
        (ServerView { initialized, ..server }).respond(request) == server.respond(request),
{
}

/// A line that is no request is answered with nothing and changes nothing; a
/// line that is a request is answered with one line.
pub proof fn lemma_one_reply_per_request(server: ServerView, line: Seq<char>)
    ensures
        decoded(line) is Err ==> server.reply(line) is None && server.after_line(line) == server,
        decoded(line) is Ok ==> server.reply(line) is Some,
{
}

/// A line that is no request makes no difference to a session, wherever it
/// stands in the input: the server sends what it sends without the line, and
/// ends in the same state.
pub proof fn lemma_dropped_line_changes_nothing(
    server: ServerView,
    before: Seq<Seq<char>>,
    line: Seq<char>,
    after: Seq<Seq<char>>,
)
    requires
        decoded(line) is Err,
    ensures
        server.replies(before.push(line) + after) == server.replies(before + after),
        server.after_lines(before.push(line) + after) == server.after_lines(before + after),
    decreases after.len(),
{
    let with_line = before.push(line) + after;
    let without = before + after;
    if after.len() == 0 {
        assert(with_line =~= before.push(line));
        assert(without =~= before);
        assert(with_line.drop_last() =~= before);
    } else {
        assert(with_line.drop_last() =~= before.push(line) + after.drop_last());
        assert(without.drop_last() =~= before + after.drop_last());
        assert(with_line.last() == after.last());
        assert(without.last() == after.last());
        lemma_dropped_line_changes_nothing(server, before, line, after.drop_last());
    }
}

/// The server never sends more lines than it was given.
pub proof fn lemma_at_most_one_reply_per_line(server: ServerView, lines: Seq<Seq<char>>)
    ensures
        server.replies(lines).len() <= lines.len(),
    decreases lines.len(),
{
    if lines.len() > 0 {
        lemma_at_most_one_reply_per_line(server, lines.drop_last());
    }
}

impl Default for McpServer {
    fn default() -> (server: McpServer)
        ensures
            server@ == ServerView::new(),
    {
        McpServer::new()
    }
}

} // verus!
