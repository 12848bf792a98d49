//! The tools that the server offers, each with the schema of its arguments.

use vstd::prelude::*;
use crate::executor::{DEPLOY_TOOL, QUERY_TOOL, TELEMETRY_TOOL};
use crate::json::{item_views, Json, JsonView};
use crate::protocol::{distinct_names, tool_views, Tool, ToolView};
use crate::trusted::integer_number;

verus! {

/// The array of the strings `texts`.
pub open spec fn texts_json(texts: Seq<Seq<char>>) -> JsonView {
    JsonView::Array(texts.map_values(|t: Seq<char>| JsonView::Str(t)))
}

/// The schema of a string argument.
pub open spec fn text_property(description: Seq<char>) -> JsonView {
    JsonView::empty_object().with("type"@, JsonView::Str("string"@)).with(
        "description"@,
        JsonView::Str(description),
    )
}

/// The schema of a string argument that has a default.
pub open spec fn text_property_with_default(description: Seq<char>, default: Seq<char>) -> JsonView {
    text_property(description).with("default"@, JsonView::Str(default))
}

/// The schema of a string argument that takes one of `choices`.
pub open spec fn choice_property(choices: Seq<Seq<char>>, description: Seq<char>) -> JsonView {
    JsonView::empty_object().with("type"@, JsonView::Str("string"@)).with(
        "enum"@,
        texts_json(choices),
    ).with("description"@, JsonView::Str(description))
}

/// The schema of a number argument that has a default.
pub open spec fn number_property(description: Seq<char>, default: i64) -> JsonView {
    JsonView::empty_object().with("type"@, JsonView::Str("number"@)).with(
        "description"@,
        JsonView::Str(description),
    ).with("default"@, JsonView::Number(integer_number(default)))
}

/// The schema of arguments given by name: the schema of each, and the names
/// of those that a call must give.
pub open spec fn object_schema(properties: JsonView, required: Seq<Seq<char>>) -> JsonView {
    JsonView::empty_object().with("type"@, JsonView::Str("object"@)).with(
        "properties"@,
        properties,
    ).with("required"@, texts_json(required))
}

/// The schema of the arguments of the query tool.
pub open spec fn query_schema() -> JsonView {
    object_schema(
        JsonView::empty_object().with(
            "database"@,
            text_property("Database name (e.g., 'production', 'staging')"@),
        ).with("collection"@, text_property("Collection name (e.g., 'users', 'events')"@)).with(
            "query"@,
            text_property("JSON query filter"@),
        ).with("limit"@, number_property("Maximum number of results"@, 100)),
        seq!["database"@, "collection"@, "query"@],
    )
}

/// The schema of the arguments of the deploy tool.
pub open spec fn deploy_schema() -> JsonView {
    object_schema(
        JsonView::empty_object().with(
            "service"@,
            choice_property(seq!["gateway"@, "api-core"@, "events"@], "Service to deploy"@),
        ).with("cluster"@, text_property("Target cluster (e.g., 'production', 'staging')"@)).with(
            "namespace"@,
            text_property_with_default("Kubernetes namespace"@, "avx-core"@),
        ).with("replicas"@, number_property("Number of replicas"@, 2)).with(
            "image"@,
            text_property("Container image (optional, uses default if not specified)"@),
        ),
        seq!["service"@, "cluster"@],
    )
}

/// The schema of the arguments of the telemetry tool.
pub open spec fn telemetry_schema() -> JsonView {
    object_schema(
        JsonView::empty_object().with(
            "service"@,
            text_property("Service name (e.g., 'gateway', 'api-core')"@),
        ).with(
            "metric"@,
            choice_property(
                seq!["cpu"@, "memory"@, "requests"@, "latency"@, "errors"@],
                "Metric type to retrieve"@,
            ),
        ).with("cluster"@, text_property_with_default("Target cluster"@, "production"@)).with(
            "timeRange"@,
            text_property_with_default("Time range (e.g., '1h', '24h', '7d')"@, "1h"@),
        ),
        seq!["service"@, "metric"@],
    )
}

/// The query tool.
pub open spec fn query_tool() -> ToolView {
    ToolView {
        name: QUERY_TOOL@,
        description: "Query AvilaDB collections with filters and projections"@,
        input_schema: query_schema(),
    }
}

/// The deploy tool.
pub open spec fn deploy_tool() -> ToolView {
    ToolView {
        name: DEPLOY_TOOL@,
        description: "Deploy services to AVX clusters with automatic K8s manifest generation"@,
        input_schema: deploy_schema(),
    }
}

/// The telemetry tool.
pub open spec fn telemetry_tool() -> ToolView {
    ToolView {
        name: TELEMETRY_TOOL@,
        description: "Get real-time telemetry and metrics from AVX services"@,
        input_schema: telemetry_schema(),
    }
}

/// Every tool that the server offers: query, deploy, telemetry.
pub open spec fn all_tools() -> Seq<ToolView> {
    seq![query_tool(), deploy_tool(), telemetry_tool()]
}

/// The server offers three tools, and no two of them have the same name.
pub proof fn lemma_all_tools_distinct()
    ensures
        all_tools().len() == 3,
        distinct_names(all_tools()),
{
    reveal_strlit("avx_query");
    reveal_strlit("avx_deploy");
    reveal_strlit("avx_telemetry");
    let all = all_tools();
    assert(all[0].name.len() == 9);
    assert(all[1].name.len() == 10);
    assert(all[2].name.len() == 13);
}

/// The texts of `items`, in their order.
pub open spec fn texts_of(items: Seq<&'static str>) -> Seq<Seq<char>> {
    items.map_values(|s: &'static str| s@)
}

fn texts(items: Vec<&'static str>) -> (doc: Json)
    ensures
        doc@ == texts_json(texts_of(items@)),
{
    let mut docs: Vec<Json> = Vec::new();
    let mut i: usize = 0;
    while i < items.len()
        invariant
            i <= items@.len(),
            docs@.len() == i,
            forall|k: int| 0 <= k < i ==> (#[trigger] docs@[k])@ == JsonView::Str(items@[k]@),
        decreases items@.len() - i,
    {
        docs.push(Json::string(items[i]));
        i += 1;
    }
    assert(item_views(docs@) =~= texts_of(items@).map_values(|t: Seq<char>| JsonView::Str(t)));
    Json::array(docs)
}

fn text_schema(description: &str) -> (doc: Json)
    ensures
        doc@ == text_property(description@),
{
    Json::empty_object().with("type", Json::string("string")).with(
        "description",
        Json::string(description),
    )
}

fn text_schema_with_default(description: &str, default: &str) -> (doc: Json)
    ensures
        doc@ == text_property_with_default(description@, default@),
{
    text_schema(description).with("default", Json::string(default))
}

fn choice_schema(choices: Vec<&'static str>, description: &str) -> (doc: Json)
    ensures
        doc@ == choice_property(texts_of(choices@), description@),
{
    Json::empty_object().with("type", Json::string("string")).with("enum", texts(choices)).with(
        "description",
        Json::string(description),
    )
}

fn number_schema(description: &str, default: i64) -> (doc: Json)
    ensures
        doc@ == number_property(description@, default),
{
    Json::empty_object().with("type", Json::string("number")).with(
        "description",
        Json::string(description),
    ).with("default", Json::integer(default))
}

fn arguments_schema(properties: Json, required: Vec<&'static str>) -> (doc: Json)
    ensures
        doc@ == object_schema(properties@, texts_of(required@)),
{
    Json::empty_object().with("type", Json::string("object")).with("properties", properties).with(
        "required",
        texts(required),
    )
}

/// The query tool.
pub fn get_query_tool() -> (tool: Tool)
    ensures
        tool@ == query_tool(),
{
    let properties = Json::empty_object().with(
        "database",
        text_schema("Database name (e.g., 'production', 'staging')"),
    ).with("collection", text_schema("Collection name (e.g., 'users', 'events')")).with(
        "query",
        text_schema("JSON query filter"),
    ).with("limit", number_schema("Maximum number of results", 100));
    let required = vec!["database", "collection", "query"];
    assert(texts_of(required@) =~= seq!["database"@, "collection"@, "query"@]);
    Tool::new(
        QUERY_TOOL,
        "Query AvilaDB collections with filters and projections",
        arguments_schema(properties, required),
    )
}

/// The deploy tool.
pub fn get_deploy_tool() -> (tool: Tool)
    ensures
        tool@ == deploy_tool(),
{
    let services = vec!["gateway", "api-core", "events"];
    assert(texts_of(services@) =~= seq!["gateway"@, "api-core"@, "events"@]);
    let properties = Json::empty_object().with(
        "service",
        choice_schema(services, "Service to deploy"),
    ).with("cluster", text_schema("Target cluster (e.g., 'production', 'staging')")).with(
        "namespace",
        text_schema_with_default("Kubernetes namespace", "avx-core"),
    ).with("replicas", number_schema("Number of replicas", 2)).with(
        "image",
        text_schema("Container image (optional, uses default if not specified)"),
    );
    let required = vec!["service", "cluster"];
    assert(texts_of(required@) =~= seq!["service"@, "cluster"@]);
    Tool::new(
        DEPLOY_TOOL,
        "Deploy services to AVX clusters with automatic K8s manifest generation",
        arguments_schema(properties, required),
    )
}

/// The telemetry tool.
pub fn get_telemetry_tool() -> (tool: Tool)
    ensures
        tool@ == telemetry_tool(),
{
    let metrics = vec!["cpu", "memory", "requests", "latency", "errors"];
    assert(texts_of(metrics@) =~= seq!["cpu"@, "memory"@, "requests"@, "latency"@, "errors"@]);
    let properties = Json::empty_object().with(
        "service",
        text_schema("Service name (e.g., 'gateway', 'api-core')"),
    ).with("metric", choice_schema(metrics, "Metric type to retrieve")).with(
        "cluster",
        text_schema_with_default("Target cluster", "production"),
    ).with("timeRange", text_schema_with_default("Time range (e.g., '1h', '24h', '7d')", "1h"));
    let required = vec!["service", "metric"];
    assert(texts_of(required@) =~= seq!["service"@, "metric"@]);
    Tool::new(
        TELEMETRY_TOOL,
        "Get real-time telemetry and metrics from AVX services",
        arguments_schema(properties, required),
    )
}

/// Every tool that the server offers: query, deploy, telemetry.
pub fn get_all_tools() -> (tools: Vec<Tool>)
    ensures
        tool_views(tools@) == all_tools(),
{
    let mut tools: Vec<Tool> = Vec::new();
    tools.push(get_query_tool());
    tools.push(get_deploy_tool());
    tools.push(get_telemetry_tool());
    assert(tool_views(tools@) =~= all_tools());
    tools
}

} // verus!
