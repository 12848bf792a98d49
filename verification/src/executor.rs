//! The tools that the server can run. Each takes its arguments by name, falls
//! back on a default where an argument is missing or is no string, and hands
//! back a text.

use vstd::prelude::*;
use crate::json::{Json, JsonView};
use crate::text::{joined, str_eq};

verus! {

/// The name of the tool that queries a database.
pub const QUERY_TOOL: &'static str = "avx_query";

/// The name of the tool that deploys a service.
pub const DEPLOY_TOOL: &'static str = "avx_deploy";

/// The name of the tool that reports a metric.
pub const TELEMETRY_TOOL: &'static str = "avx_telemetry";

/// The text of the string argument under `key`, or `default` where there is no
/// such argument or it is no string.
pub open spec fn text_argument(
    arguments: Map<Seq<char>, JsonView>,
    key: Seq<char>,
    default: Seq<char>,
) -> Seq<char> {
    JsonView::Object(arguments).text_member_or(key, default)
}

/// What the query tool hands back: the argument `query`, empty by default.
pub open spec fn query_output(arguments: Map<Seq<char>, JsonView>) -> Seq<char> {
    "🔍 Executed query: "@ + text_argument(arguments, "query"@, ""@)
}

/// What the deploy tool hands back: the argument `service`, `unknown` by
/// default.
pub open spec fn deploy_output(arguments: Map<Seq<char>, JsonView>) -> Seq<char> {
    "🚀 Deployed service: "@ + text_argument(arguments, "service"@, "unknown"@)
}

/// What the telemetry tool hands back: the argument `metric`, `cpu` by
/// default.
pub open spec fn telemetry_output(arguments: Map<Seq<char>, JsonView>) -> Seq<char> {
    "📊 Telemetry for "@ + text_argument(arguments, "metric"@, "cpu"@) + ": 42%"@
}

/// What a call of the tool `name` hands back. A name that is none of the
/// tools' gives a text that says so.
pub open spec fn tool_output(name: Seq<char>, arguments: Map<Seq<char>, JsonView>) -> Seq<char> {
    if name == QUERY_TOOL@ {
        query_output(arguments)
    } else if name == DEPLOY_TOOL@ {
        deploy_output(arguments)
    } else if name == TELEMETRY_TOOL@ {
        telemetry_output(arguments)
    } else {
        "Unknown tool: "@ + name
    }
}

/// Runs the query tool.
pub fn execute_query(arguments: &Json) -> (text: String)
    ensures
        text@ == query_output(arguments@.members()),
{
    let query = arguments.text_member_or("query", "");
    joined("🔍 Executed query: ", query.as_str())
}

/// Runs the deploy tool.
pub fn execute_deploy(arguments: &Json) -> (text: String)
    ensures
        text@ == deploy_output(arguments@.members()),
{
    let service = arguments.text_member_or("service", "unknown");
    joined("🚀 Deployed service: ", service.as_str())
}

/// Runs the telemetry tool.
pub fn execute_telemetry(arguments: &Json) -> (text: String)
    ensures
        text@ == telemetry_output(arguments@.members()),
{
    let metric = arguments.text_member_or("metric", "cpu");
    let head = joined("📊 Telemetry for ", metric.as_str());
    joined(head.as_str(), ": 42%")
}

/// Runs the tool `name` on `arguments`.
pub fn execute(name: &str, arguments: &Json) -> (text: String)
    ensures
        text@ == tool_output(name@, arguments@.members()),
{
    if str_eq(name, QUERY_TOOL) {
        execute_query(arguments)
    } else if str_eq(name, DEPLOY_TOOL) {
        execute_deploy(arguments)
    } else if str_eq(name, TELEMETRY_TOOL) {
        execute_telemetry(arguments)
    } else {
        joined("Unknown tool: ", name)
    }
}

} // verus!
