use tavily_mcp_rs::json::{JsonNumber, JsonValue};
use tavily_mcp_rs::mcp::{
    call_tool_reply, invalid_json_reply, list_tools_reply, request_method, route_request, Route,
    ServerReply, StdioServerTransport, METHOD_NOT_FOUND, PARSE_ERROR,
};
use tavily_mcp_rs::tavily::text_result;
use tavily_mcp_rs::types::{ListToolsRequest, McpError};

fn s(t: &str) -> JsonValue {
    JsonValue::String(t.to_string())
}

fn request(members: Vec<(&str, JsonValue)>) -> JsonValue {
    JsonValue::Object(members.into_iter().map(|(k, v)| (k.to_string(), v)).collect())
}

#[test]
fn transport_is_built() {
    let _transport = StdioServerTransport::new();
}

#[test]
fn method_is_read_from_request() {
    assert_eq!(request_method(&request(vec![("method", s("list_tools"))])), "list_tools");
    assert_eq!(request_method(&request(vec![("method", JsonValue::Bool(true))])), "");
    assert_eq!(request_method(&request(vec![])), "");
    assert_eq!(request_method(&JsonValue::Array(vec![])), "");
}

#[test]
fn known_methods_go_to_the_server() {
    let list = request(vec![("jsonrpc", s("2.0")), ("method", s("list_tools")), ("id", s("1"))]);
    assert!(matches!(route_request(&list), Route::ListTools));
    let call = request(vec![("method", s("call_tool")), ("id", s("2"))]);
    assert!(matches!(route_request(&call), Route::CallTool));
}

#[test]
fn unknown_method_is_answered_with_its_id() {
    let r = request(vec![("method", s("ping")), ("id", s("9"))]);
    match route_request(&r) {
        Route::Reply(ServerReply::Failure { request_id, code, message }) => {
            assert_eq!(request_id, Some("9".to_string()));
            assert_eq!(code, METHOD_NOT_FOUND);
            assert_eq!(code, -32601);
            assert_eq!(message, "Unknown method: ping");
        }
        _ => panic!("expected a method-not-found reply"),
    }
}

#[test]
fn unknown_method_without_string_id_uses_zero() {
    let r = request(vec![("id", JsonValue::Number(JsonNumber::PosInt(3)))]);
    match route_request(&r) {
        Route::Reply(ServerReply::Failure { request_id, code, message }) => {
            assert_eq!(request_id, Some("0".to_string()));
            assert_eq!(code, -32601);
            assert_eq!(message, "Unknown method: ");
        }
        _ => panic!("expected a method-not-found reply"),
    }
}

#[test]
fn bad_json_is_a_parse_error_without_id() {
    match invalid_json_reply("expected value at line 1 column 1") {
        ServerReply::Failure { request_id, code, message } => {
            assert_eq!(request_id, None);
            assert_eq!(code, PARSE_ERROR);
            assert_eq!(code, -32700);
            assert_eq!(message, "Invalid JSON: expected value at line 1 column 1");
        }
        _ => panic!("expected a parse error"),
    }
}

#[test]
fn tool_list_reply_echoes_the_id() {
    let req = ListToolsRequest {
        jsonrpc: "2.0".to_string(),
        method: "list_tools".to_string(),
        id: "abc".to_string(),
    };
    match list_tools_reply(req, vec![]) {
        ServerReply::Tools(resp) => {
            assert_eq!(resp.jsonrpc, "2.0");
            assert_eq!(resp.id, "abc");
            assert!(resp.result.tools.is_empty());
        }
        _ => panic!("expected a tool list"),
    }
}

#[test]
fn tool_result_reply_echoes_the_id() {
    match call_tool_reply("7".to_string(), Ok(text_result("done".to_string()))) {
        ServerReply::ToolOutput(resp) => {
            assert_eq!(resp.jsonrpc, "2.0");
            assert_eq!(resp.id, "7");
            assert_eq!(resp.result.content.len(), 1);
            assert_eq!(resp.result.content[0].kind, "text");
            assert_eq!(resp.result.content[0].text, "done");
            assert_eq!(resp.result.is_error, None);
        }
        _ => panic!("expected a tool result"),
    }
}

#[test]
fn tool_error_reply_shows_the_error() {
    let err = McpError::MethodNotFound("Unknown tool: x".to_string());
    match call_tool_reply("8".to_string(), Err(err)) {
        ServerReply::ToolFailure { id, text } => {
            assert_eq!(id, "8");
            assert_eq!(text, "Error: Method not found: Unknown tool: x");
        }
        _ => panic!("expected a tool failure"),
    }
}

#[test]
fn error_messages() {
    assert_eq!(McpError::MethodNotFound("m".to_string()).message(), "Method not found: m");
    assert_eq!(McpError::InvalidApiKey.message(), "Invalid API key");
    assert_eq!(McpError::UsageLimitExceeded.message(), "Usage limit exceeded");
    assert_eq!(McpError::HttpError("h".to_string()).message(), "HTTP error: h");
    assert_eq!(McpError::IoError("i".to_string()).message(), "IO error: i");
    assert_eq!(McpError::JsonError("j".to_string()).message(), "JSON error: j");
    assert_eq!(McpError::General("g".to_string()).message(), "General error: g");
}
