use avx_mcp::codec::parse;
use avx_mcp::json::Json;
use avx_mcp::protocol::{
    DecodeError, JsonRpcError, JsonRpcRequest, Outcome, Resource, Tool, INVALID_PARAMS,
    METHOD_NOT_FOUND,
};
use avx_mcp::resources::get_all_resources;
use avx_mcp::server::{McpServer, Method, SERVER_NAME, SERVER_VERSION};
use avx_mcp::tools::get_all_tools;

fn value(text: &str) -> serde_json::Value {
    serde_json::from_str(text).expect("valid JSON")
}

fn furnished() -> McpServer {
    let mut server = McpServer::new();
    for resource in get_all_resources() {
        server.register_resource(resource);
    }
    for tool in get_all_tools() {
        server.register_tool(tool);
    }
    server
}

fn request(id: Json, method: &str, params: Option<&str>) -> JsonRpcRequest {
    JsonRpcRequest {
        id,
        method: method.to_string(),
        params: params.map(|text| parse(text).expect("valid JSON")),
    }
}

fn failure(outcome: Outcome) -> JsonRpcError {
    match outcome {
        Outcome::Failure(error) => error,
        Outcome::Success(result) => panic!("a result where an error was due: {:?}", result),
    }
}

fn result(outcome: Outcome) -> Json {
    match outcome {
        Outcome::Success(result) => result,
        Outcome::Failure(error) => panic!("an error where a result was due: {:?}", error),
    }
}

#[test]
fn the_server_names_itself() {
    assert_eq!(SERVER_NAME, "avx-mcp");
    assert_eq!(SERVER_VERSION, "0.1.0");
}

#[test]
fn method_of_knows_the_six_names() {
    assert_eq!(Method::of("initialize"), Method::Initialize);
    assert_eq!(Method::of("initialized"), Method::Initialized);
    assert_eq!(Method::of("resources/list"), Method::ResourcesList);
    assert_eq!(Method::of("resources/read"), Method::ResourcesRead);
    assert_eq!(Method::of("tools/list"), Method::ToolsList);
    assert_eq!(Method::of("tools/call"), Method::ToolsCall);
}

#[test]
fn method_of_takes_every_other_name_as_unknown() {
    assert_eq!(Method::of("nope"), Method::Unknown);
    assert_eq!(Method::of(""), Method::Unknown);
    assert_eq!(Method::of("Initialize"), Method::Unknown);
    assert_eq!(Method::of("tools/list "), Method::Unknown);
    assert_eq!(Method::of("prompts/list"), Method::Unknown);
}

#[test]
fn a_new_server_is_empty_and_before_the_handshake() {
    let server = McpServer::new();
    assert!(!server.is_initialized());
    assert!(server.resources().is_empty());
    assert!(server.tools().is_empty());
    let by_default = McpServer::default();
    assert!(!by_default.is_initialized());
    assert!(by_default.resources().is_empty());
    assert!(by_default.tools().is_empty());
}

#[test]
fn registering_appends() {
    let mut server = McpServer::new();
    server.register_resource(Resource::new("u1", "n1", "d1", "m1"));
    server.register_resource(Resource::new("u2", "n2", "d2", "m2"));
    server.register_tool(Tool::new("t1", "d1", Json::Null));
    assert_eq!(
        server.resources(),
        &vec![Resource::new("u1", "n1", "d1", "m1"), Resource::new("u2", "n2", "d2", "m2")]
    );
    assert_eq!(server.tools(), &vec![Tool::new("t1", "d1", Json::Null)]);
    assert!(!server.is_initialized());
}

#[test]
fn every_method_echoes_the_identifier() {
    let methods = [
        "initialize",
        "initialized",
        "resources/list",
        "resources/read",
        "tools/list",
        "tools/call",
        "nope",
    ];
    let ids = [
        Json::integer(1),
        Json::string("req-7"),
        Json::Null,
        parse("1.5").expect("valid JSON"),
        parse("{\"a\":[1]}").expect("valid JSON"),
    ];
    for method in methods {
        for id in &ids {
            let mut server = furnished();
            let response = server.handle_request(request(id.clone(), method, None));
            assert_eq!(&response.id, id);
            let mut server = furnished();
            let response =
                server.handle_request(request(id.clone(), method, Some("{\"name\":\"avx_query\"}")));
            assert_eq!(&response.id, id);
        }
    }
}

#[test]
fn an_unknown_method_is_reported_with_its_name() {
    let mut server = furnished();
    let response = server.handle_request(request(Json::integer(3), "resources/delete", None));
    let error = failure(response.outcome);
    assert_eq!(error.code, METHOD_NOT_FOUND);
    assert_eq!(error.code, -32601);
    assert_eq!(error.message, "Method not found: resources/delete");
    assert!(error.message.contains("resources/delete"));
}

#[test]
fn the_empty_method_is_unknown() {
    let mut server = McpServer::new();
    let error = failure(server.handle_request(request(Json::Null, "", None)).outcome);
    assert_eq!(error.code, -32601);
    assert_eq!(error.message, "Method not found: ");
}

#[test]
fn tools_call_without_name_is_rejected() {
    let mut server = furnished();
    let response = server.handle_request(request(
        Json::integer(4),
        "tools/call",
        Some("{\"arguments\":{\"service\":\"gateway\"}}"),
    ));
    assert_eq!(response.id, Json::integer(4));
    let error = failure(response.outcome);
    assert_eq!(error.code, INVALID_PARAMS);
    assert_eq!(error.code, -32602);
    assert_eq!(error.message, "Invalid params: missing field `name`");
}

#[test]
fn tools_call_without_params_is_rejected() {
    let mut server = furnished();
    let error =
        failure(server.handle_request(request(Json::integer(4), "tools/call", None)).outcome);
    assert_eq!(error.code, -32602);
    assert_eq!(error.message, "Missing params");
}

#[test]
fn tools_call_with_params_of_the_wrong_shape_is_rejected() {
    let cases = [
        ("[\"avx_query\"]", "Invalid params: expected an object"),
        ("\"avx_query\"", "Invalid params: expected an object"),
        ("{\"name\":5}", "Invalid params: field `name` is not a string"),
        ("{\"name\":\"avx_query\",\"arguments\":7}", "Invalid params: field `arguments` is not an object"),
    ];
    for (params, message) in cases {
        let mut server = furnished();
        let error = failure(
            server.handle_request(request(Json::integer(5), "tools/call", Some(params))).outcome,
        );
        assert_eq!(error.code, -32602);
        assert_eq!(error.message, message);
    }
}

#[test]
fn resources_list_keeps_the_order_of_registration() {
    let mut server = McpServer::new();
    let uris = ["z://last", "a://first", "m://middle", "a://first"];
    for (i, uri) in uris.iter().enumerate() {
        let name = format!("resource {}", i);
        server.register_resource(Resource::new(uri, &name, "d", "text/plain"));
    }
    let listed = result(server.handle_request(request(Json::integer(1), "resources/list", None)).outcome);
    let items = match listed.get("resources") {
        Some(Json::Array(items)) => items.clone(),
        other => panic!("no array of resources: {:?}", other),
    };
    assert_eq!(items.len(), 4);
    for (i, uri) in uris.iter().enumerate() {
        assert_eq!(items[i].get("uri"), Some(&Json::string(uri)));
        assert_eq!(items[i].get("name"), Some(&Json::string(&format!("resource {}", i))));
    }
}

#[test]
fn resources_list_of_nothing_is_the_empty_array() {
    let mut server = McpServer::new();
    let response = server.handle_request(request(Json::integer(1), "resources/list", None));
    assert_eq!(
        value(&response.encode()),
        value("{\"jsonrpc\":\"2.0\",\"id\":1,\"result\":{\"resources\":[]}}")
    );
}

#[test]
fn resources_list_of_the_catalogue_has_six_entries() {
    let mut server = furnished();
    let response = server.handle_request(request(Json::integer(1), "resources/list", None));
    let line = value(&response.encode());
    let listed = line["result"]["resources"].as_array().expect("an array");
    assert_eq!(listed.len(), 6);
    assert_eq!(
        listed[0],
        value(
            "{\"uri\":\"aviladb://production/users\",\"name\":\"Users Database\",\
             \"description\":\"Production user database collection\",\
             \"mimeType\":\"application/json\"}"
        )
    );
    assert_eq!(listed[5]["uri"], "avx://cluster/staging");
}

#[test]
fn initialize_answers_with_the_capabilities() {
    let mut server = McpServer::new();
    let response = server.handle_request(request(Json::integer(0), "initialize", None));
    assert_eq!(
        value(&response.encode()),
        value(
            "{\"jsonrpc\":\"2.0\",\"id\":0,\"result\":{\
               \"protocolVersion\":\"2024-11-05\",\
               \"capabilities\":{\
                 \"resources\":{\"subscribe\":false,\"listChanged\":false},\
                 \"tools\":{\"listChanged\":false}},\
               \"serverInfo\":{\"name\":\"avx-mcp\",\"version\":\"0.1.0\"}}}"
        )
    );
}

#[test]
fn initialize_twice_answers_the_same_and_leaves_the_flag() {
    let mut server = furnished();
    let first = server.handle_request(request(
        Json::integer(1),
        "initialize",
        Some("{\"clientInfo\":{\"name\":\"c\"}}"),
    ));
    assert!(!server.is_initialized());
    let second = server.handle_request(request(Json::integer(2), "initialize", None));
    assert!(!server.is_initialized());
    assert_eq!(result(first.outcome), result(second.outcome));

    server.handle_request(request(Json::Null, "initialized", None));
    assert!(server.is_initialized());
    let third = server.handle_initialize(request(Json::integer(3), "initialize", None));
    assert!(server.is_initialized());
    let mut other = McpServer::new();
    let fourth = other.handle_initialize(request(Json::integer(4), "initialize", None));
    assert_eq!(result(third.outcome), result(fourth.outcome));
}

#[test]
fn initialized_completes_the_handshake() {
    let mut server = McpServer::new();
    assert!(!server.is_initialized());
    let response = server.handle_request(request(Json::Null, "initialized", None));
    assert!(server.is_initialized());
    assert_eq!(response.id, Json::Null);
    assert_eq!(response.outcome, Outcome::Success(Json::Object(vec![])));
    assert_eq!(response.encode(), "{\"id\":null,\"jsonrpc\":\"2.0\",\"result\":{}}");
    server.handle_request(request(Json::Null, "initialized", None));
    assert!(server.is_initialized());
}

#[test]
fn no_other_method_touches_the_flag_or_the_registries() {
    for method in ["initialize", "resources/list", "resources/read", "tools/list", "tools/call", "x"]
    {
        let mut server = furnished();
        server.handle_request(request(Json::integer(1), method, Some("{\"name\":\"avx_query\"}")));
        assert!(!server.is_initialized());
        assert_eq!(server.resources(), &get_all_resources());
        assert_eq!(server.tools(), &get_all_tools());
    }
}

#[test]
fn every_method_is_answered_before_the_handshake() {
    let mut server = furnished();
    assert!(server.handle_request(request(Json::integer(1), "resources/list", None)).is_success());
    assert!(server.handle_request(request(Json::integer(2), "resources/read", None)).is_success());
    assert!(server.handle_request(request(Json::integer(3), "tools/list", None)).is_success());
    assert!(server
        .handle_request(request(Json::integer(4), "tools/call", Some("{\"name\":\"avx_query\"}")))
        .is_success());
    assert!(!server.is_initialized());
}

#[test]
fn resources_read_reports_the_address_as_in_order() {
    let mut server = furnished();
    let response = server.handle_request(request(
        Json::integer(6),
        "resources/read",
        Some("{\"uri\":\"avx://config/stack\"}"),
    ));
    assert_eq!(
        value(&response.encode()),
        value(
            "{\"jsonrpc\":\"2.0\",\"id\":6,\"result\":{\"contents\":[{\
               \"uri\":\"avx://config/stack\",\
               \"mimeType\":\"application/json\",\
               \"text\":\"{\\\"status\\\":\\\"ok\\\",\\\"uri\\\":\\\"avx://config/stack\\\"}\"}]}}"
        )
    );
}

#[test]
fn resources_read_answers_an_address_that_is_not_registered() {
    let server = McpServer::new();
    let response = server.handle_resources_read(request(
        Json::integer(6),
        "resources/read",
        Some("{\"uri\":\"nowhere://x\",\"other\":1}"),
    ));
    let contents = result(response.outcome);
    let block = match contents.get("contents") {
        Some(Json::Array(blocks)) if blocks.len() == 1 => blocks[0].clone(),
        other => panic!("not one block: {:?}", other),
    };
    assert_eq!(block.get("uri"), Some(&Json::string("nowhere://x")));
    assert_eq!(
        block.get("text"),
        Some(&Json::string("{\"status\":\"ok\",\"uri\":\"nowhere://x\"}"))
    );
    assert_eq!(block.get("blob"), None);
}

#[test]
fn resources_read_takes_the_empty_address_by_default() {
    for params in [None, Some("{}"), Some("{\"uri\":5}"), Some("[\"avx://x\"]"), Some("\"avx://x\"")] {
        let server = furnished();
        let response = server.handle_resources_read(request(Json::integer(6), "resources/read", params));
        let contents = result(response.outcome);
        let block = match contents.get("contents") {
            Some(Json::Array(blocks)) if blocks.len() == 1 => blocks[0].clone(),
            other => panic!("not one block: {:?}", other),
        };
        assert_eq!(block.get("uri"), Some(&Json::string("")));
        assert_eq!(block.get("mimeType"), Some(&Json::string("application/json")));
        assert_eq!(block.get("text"), Some(&Json::string("{\"status\":\"ok\",\"uri\":\"\"}")));
    }
}

#[test]
fn resources_read_escapes_the_address_in_the_text() {
    let server = McpServer::new();
    let response = server.handle_resources_read(request(
        Json::Null,
        "resources/read",
        Some("{\"uri\":\"a\\\"b\"}"),
    ));
    let contents = result(response.outcome);
    let block = match contents.get("contents") {
        Some(Json::Array(blocks)) => blocks[0].clone(),
        other => panic!("no blocks: {:?}", other),
    };
    assert_eq!(block.get("uri"), Some(&Json::string("a\"b")));
    assert_eq!(block.get("text"), Some(&Json::string("{\"status\":\"ok\",\"uri\":\"a\\\"b\"}")));
}

#[test]
fn tools_list_lists_the_registered_tools() {
    let mut server = McpServer::new();
    server.register_tool(Tool::new("second", "2", parse("{\"type\":\"object\"}").unwrap()));
    server.register_tool(Tool::new("first", "1", Json::Null));
    let response = server.handle_tools_list(request(Json::string("x"), "tools/list", None));
    assert_eq!(
        value(&response.encode()),
        value(
            "{\"jsonrpc\":\"2.0\",\"id\":\"x\",\"result\":{\"tools\":[\
               {\"name\":\"second\",\"description\":\"2\",\"inputSchema\":{\"type\":\"object\"}},\
               {\"name\":\"first\",\"description\":\"1\",\"inputSchema\":null}]}}"
        )
    );
}

#[test]
fn tools_call_runs_the_tool() {
    let server = furnished();
    let response = server.handle_tools_call(request(
        Json::integer(2),
        "tools/call",
        Some("{\"name\":\"avx_telemetry\",\"arguments\":{\"metric\":\"latency\"}}"),
    ));
    assert_eq!(
        value(&response.encode()),
        value(
            "{\"jsonrpc\":\"2.0\",\"id\":2,\"result\":{\
               \"content\":[{\"type\":\"text\",\"text\":\"📊 Telemetry for latency: 42%\"}],\
               \"isError\":false}}"
        )
    );
}

#[test]
fn tools_call_of_an_unknown_tool_is_a_result_that_says_so() {
    let mut server = furnished();
    let response = server.handle_request(request(
        Json::integer(2),
        "tools/call",
        Some("{\"name\":\"avx_reboot\"}"),
    ));
    assert!(response.is_success());
    assert_eq!(
        value(&response.encode()),
        value(
            "{\"jsonrpc\":\"2.0\",\"id\":2,\"result\":{\
               \"content\":[{\"type\":\"text\",\"text\":\"Unknown tool: avx_reboot\"}],\
               \"isError\":false}}"
        )
    );
}

#[test]
fn tools_call_runs_a_tool_that_is_not_registered() {
    let mut server = McpServer::new();
    let response = server.handle_request(request(
        Json::integer(2),
        "tools/call",
        Some("{\"name\":\"avx_query\",\"arguments\":{\"query\":\"all\"}}"),
    ));
    let text = value(&response.encode());
    assert_eq!(text["result"]["content"][0]["text"], "🔍 Executed query: all");
}

#[test]
fn tools_call_takes_defaults_for_arguments_that_are_missing() {
    let mut server = furnished();
    let response = server.handle_request(request(
        Json::integer(2),
        "tools/call",
        Some("{\"name\":\"avx_deploy\",\"arguments\":{\"service\":42}}"),
    ));
    let text = value(&response.encode());
    assert_eq!(text["result"]["content"][0]["text"], "🚀 Deployed service: unknown");
    assert_eq!(text["result"]["isError"], false);
}

#[test]
fn scenario_tools_list() {
    let mut server = furnished();
    let line = server
        .process_line("{\"jsonrpc\":\"2.0\",\"id\":1,\"method\":\"tools/list\"}")
        .expect("a response");
    assert!(!line.contains('\n'));
    let response = value(&line);
    assert_eq!(response["jsonrpc"], "2.0");
    assert_eq!(response["id"], 1);
    assert!(response.get("error").is_none());
    let listed = response["result"]["tools"].as_array().expect("an array of tools");
    assert_eq!(listed.len(), 3);
    let registered = get_all_tools();
    for (tool, written) in registered.iter().zip(listed) {
        let members = written.as_object().expect("an object");
        assert_eq!(members.len(), 3);
        assert_eq!(members["name"], tool.name.as_str());
        assert_eq!(members["description"], tool.description.as_str());
        assert_eq!(members["inputSchema"], value(&avx_mcp::codec::render(&tool.input_schema)));
    }
    assert_eq!(listed[0]["name"], "avx_query");
    assert_eq!(listed[1]["name"], "avx_deploy");
    assert_eq!(listed[2]["name"], "avx_telemetry");
}

#[test]
fn scenario_tools_call_deploy() {
    let mut server = furnished();
    let line = server
        .process_line(
            "{\"id\":2,\"method\":\"tools/call\",\"params\":{\"name\":\"avx_deploy\",\"arguments\":{\"service\":\"gateway\"}}}",
        )
        .expect("a response");
    let response = value(&line);
    assert_eq!(response["id"], 2);
    assert!(response.get("error").is_none());
    let content = response["result"]["content"].as_array().expect("an array of blocks");
    assert_eq!(content.len(), 1);
    assert_eq!(content[0]["type"], "text");
    assert_eq!(content[0]["text"], "🚀 Deployed service: gateway");
    assert_eq!(response["result"]["isError"], false);
}

#[test]
fn scenario_unknown_method() {
    let mut server = furnished();
    let line = server.process_line("{\"id\":3,\"method\":\"nope\"}").expect("a response");
    assert_eq!(
        line,
        "{\"error\":{\"code\":-32601,\"message\":\"Method not found: nope\"},\"id\":3,\"jsonrpc\":\"2.0\"}"
    );
    let response = value(&line);
    assert!(response.get("result").is_none());
    assert_eq!(response["error"]["code"], -32601);
    assert!(response["error"]["message"].as_str().expect("a message").contains("nope"));
}

#[test]
fn scenario_malformed_line_then_valid_line() {
    let mut server = furnished();
    let lines = ["{\"id\":1,\"method\":", "{\"id\":2,\"method\":\"resources/list\"}"];
    let mut sent: Vec<String> = Vec::new();
    for line in lines {
        if let Ok(response) = server.process_line(line) {
            sent.push(response);
        }
    }
    assert_eq!(sent.len(), 1);
    assert_eq!(value(&sent[0])["id"], 2);
    assert_eq!(value(&sent[0])["result"]["resources"].as_array().expect("an array").len(), 6);
}

#[test]
fn a_line_that_is_no_request_is_dropped_with_its_reason() {
    let mut server = furnished();
    assert_eq!(server.process_line("{oops"), Err(DecodeError::Syntax));
    assert_eq!(server.process_line(""), Err(DecodeError::Syntax));
    assert_eq!(server.process_line("[]"), Err(DecodeError::NotAnObject));
    assert_eq!(server.process_line("{\"id\":1}"), Err(DecodeError::MissingMethod));
    assert_eq!(server.process_line("{\"id\":1,\"method\":[]}"), Err(DecodeError::MethodNotText));
    assert!(!server.is_initialized());
    assert_eq!(server.resources(), &get_all_resources());
    assert_eq!(server.tools(), &get_all_tools());
}

#[test]
fn a_dropped_line_that_names_initialized_changes_nothing() {
    let mut server = McpServer::new();
    assert_eq!(
        server.process_line("{\"method\":\"initialized\"} trailing"),
        Err(DecodeError::Syntax)
    );
    assert!(!server.is_initialized());
}

#[test]
fn a_request_without_identifier_is_answered_with_null() {
    let mut server = McpServer::new();
    let line = server.process_line("{\"method\":\"initialized\"}").expect("a response");
    assert_eq!(line, "{\"id\":null,\"jsonrpc\":\"2.0\",\"result\":{}}");
    assert!(server.is_initialized());
}

#[test]
fn a_session_is_answered_line_by_line() {
    let mut server = furnished();
    let first = server.process_line("{\"id\":\"a\",\"method\":\"initialize\"}").expect("a response");
    assert_eq!(value(&first)["id"], "a");
    assert_eq!(value(&first)["result"]["protocolVersion"], "2024-11-05");
    assert!(!server.is_initialized());
    let second = server.process_line("{\"method\":\"initialized\"}").expect("a response");
    assert_eq!(value(&second)["id"], serde_json::Value::Null);
    assert!(server.is_initialized());
    let third = server
        .process_line("{\"id\":\"b\",\"method\":\"resources/read\",\"params\":{\"uri\":\"avx://cluster/staging\"}}")
        .expect("a response");
    assert_eq!(value(&third)["result"]["contents"][0]["uri"], "avx://cluster/staging");
}

#[test]
fn run_sends_one_line_for_each_request() {
    let lines: Vec<String> = [
        "{\"id\":1,\"method\":\"initialize\"}",
        "this is no request",
        "{\"method\":\"initialized\"}",
        "",
        "{\"id\":2,\"method\":\"tools/call\",\"params\":{\"name\":\"avx_query\",\"arguments\":{\"query\":\"q\"}}}",
        "[1,2]",
        "{\"id\":3,\"method\":\"nope\"}",
    ]
    .iter()
    .map(|line| line.to_string())
    .collect();
    let mut server = furnished();
    let sent = server.run(&lines);
    assert_eq!(sent.len(), 4);
    assert_eq!(value(&sent[0])["id"], 1);
    assert_eq!(value(&sent[1])["id"], serde_json::Value::Null);
    assert_eq!(value(&sent[2])["result"]["content"][0]["text"], "🔍 Executed query: q");
    assert_eq!(value(&sent[3])["error"]["code"], -32601);
    assert!(server.is_initialized());
    for line in &sent {
        assert!(!line.contains('\n'));
    }

    let mut one_by_one = furnished();
    let mut expected: Vec<String> = Vec::new();
    for line in &lines {
        if let Ok(response) = one_by_one.process_line(line) {
            expected.push(response);
        }
    }
    assert_eq!(sent, expected);
}

#[test]
fn run_skips_a_malformed_line_before_a_valid_one() {
    let lines = vec!["{\"id\":1,".to_string(), "{\"id\":2,\"method\":\"tools/list\"}".to_string()];
    let mut server = furnished();
    let sent = server.run(&lines);
    assert_eq!(sent.len(), 1);
    assert_eq!(value(&sent[0])["id"], 2);

    let mut other = furnished();
    assert_eq!(other.run(&lines[1..].to_vec()), sent);
}

#[test]
fn run_on_no_input_sends_nothing() {
    let mut server = furnished();
    assert_eq!(server.run(&Vec::new()), Vec::<String>::new());
    assert!(!server.is_initialized());
}

#[test]
fn run_on_lines_that_are_no_requests_sends_nothing_and_changes_nothing() {
    let lines = vec!["{".to_string(), "null".to_string(), "{\"method\":7}".to_string()];
    let mut server = furnished();
    assert_eq!(server.run(&lines), Vec::<String>::new());
    assert!(!server.is_initialized());
    assert_eq!(server.resources(), &get_all_resources());
}
