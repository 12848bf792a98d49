//! A protocol server that offers resources and tools to one client: requests
//! come in as lines of JSON text, and each is answered with one line.

pub mod codec;
pub mod config;
pub mod executor;
pub mod json;
pub mod manifest;
pub mod protocol;
pub mod resources;
pub mod server;
pub mod text;
pub mod tools;
pub mod trusted;

pub use crate::config::AvxConfig;
pub use crate::json::Json;
pub use crate::manifest::{generate_k8s_manifest, ServiceKind};
pub use crate::protocol::{
    CallToolParams, CallToolResult, DecodeError, InitializeResult, JsonRpcError, JsonRpcRequest,
    JsonRpcResponse, ListCapabilities, Outcome, ParamsError, Resource, ResourceCapabilities,
    ResourceContents, ServerCapabilities, ServerInfo, Tool, ToolContent, INVALID_PARAMS,
    JSONRPC_VERSION, METHOD_NOT_FOUND, PROTOCOL_VERSION,
};
pub use crate::resources::{
    get_all_resources, get_aviladb_resources, get_avx_config_resources, get_cluster_resources,
};
pub use crate::server::{McpServer, Method, SERVER_NAME, SERVER_VERSION};
pub use crate::tools::{get_all_tools, get_deploy_tool, get_query_tool, get_telemetry_tool};
