use tavily_mcp_rs::json::{JsonNumber, JsonValue};
use tavily_mcp_rs::tavily::{
    api_error, apply_search_defaults, plan_call_tool, response_is_success, tool_output,
    TavilyClient, ToolCall, EXTRACT_TOOL_DESCRIPTION, EXTRACT_URL, SEARCH_TOOL_DESCRIPTION,
    SEARCH_URL,
};
use tavily_mcp_rs::types::{
    CallToolParams, ExtractParams, McpError, SearchParams, SearchResult, TavilyResponse,
};

fn s(t: &str) -> JsonValue {
    JsonValue::String(t.to_string())
}

fn call(name: &str, args: Option<Vec<(&str, JsonValue)>>) -> CallToolParams {
    CallToolParams {
        name: name.to_string(),
        arguments: args.map(|a| a.into_iter().map(|(k, v)| (k.to_string(), v)).collect()),
    }
}

fn search(query: &str, topic: Option<&str>) -> SearchParams {
    SearchParams {
        query: query.to_string(),
        search_depth: None,
        topic: topic.map(|t| t.to_string()),
        days: None,
        time_range: None,
        max_results: None,
        include_images: None,
        include_image_descriptions: None,
        include_raw_content: None,
        include_domains: None,
        exclude_domains: None,
        api_key: None,
    }
}

fn general(r: Result<ToolCall, McpError>) -> String {
    match r {
        Err(McpError::General(m)) => m,
        _ => panic!("expected a general error"),
    }
}

#[test]
fn client_knows_its_endpoints() {
    let client = TavilyClient::new("key".to_string());
    assert_eq!(client.search_endpoint(), "https://api.tavily.com/search");
    assert_eq!(client.extract_endpoint(), "https://api.tavily.com/extract");
    assert_eq!(client.search_endpoint(), SEARCH_URL);
    assert_eq!(client.extract_endpoint(), EXTRACT_URL);
    assert_eq!(client.base_url("search"), Some(SEARCH_URL));
    assert_eq!(client.base_url("crawl"), None);
}

#[test]
fn two_tools_are_offered() {
    let client = TavilyClient::new("key".to_string());
    let tools = client.handle_list_tools().unwrap();
    assert_eq!(tools.len(), 2);
    assert_eq!(tools[0].name, "tavily-search");
    assert_eq!(tools[1].name, "tavily-extract");
    assert_eq!(tools[0].description, SEARCH_TOOL_DESCRIPTION);
    assert_eq!(tools[1].description, EXTRACT_TOOL_DESCRIPTION);
    let required = tools[0].input_schema.get("required").unwrap().as_array().unwrap();
    assert_eq!(required[0].as_str(), Some("query"));
    let required = tools[1].input_schema.get("required").unwrap().as_array().unwrap();
    assert_eq!(required[0].as_str(), Some("urls"));
    let props = tools[0].input_schema.get("properties").unwrap();
    let max = props.get("max_results").unwrap();
    assert_eq!(max.get("maximum").unwrap().as_i64(), Some(20));
    assert_eq!(max.get("minimum").unwrap().as_i64(), Some(5));
    assert_eq!(props.get("days").unwrap().get("default").unwrap().as_i64(), Some(3));
    let ranges = props.get("time_range").unwrap().get("enum").unwrap().as_array().unwrap();
    assert_eq!(ranges.len(), 8);
    assert_eq!(
        props.get("include_images").unwrap().get("default").unwrap().as_bool(),
        Some(false)
    );
}

#[test]
fn search_call_reads_every_argument() {
    let p = call(
        "tavily-search",
        Some(vec![
            ("query", s("rust")),
            ("search_depth", s("advanced")),
            ("topic", s("general")),
            ("days", JsonValue::Number(JsonNumber::PosInt((1u64 << 32) + 5))),
            ("time_range", s("week")),
            ("max_results", JsonValue::Number(JsonNumber::NegInt(-2))),
            ("include_images", JsonValue::Bool(true)),
            ("include_image_descriptions", s("yes")),
            ("include_raw_content", JsonValue::Bool(false)),
            ("include_domains", JsonValue::Array(vec![s("a.com"), JsonValue::Null, s("b.org")])),
            ("exclude_domains", s("c.net")),
        ]),
    );
    match plan_call_tool(p) {
        Ok(ToolCall::Search(q)) => {
            assert_eq!(q.query, "rust");
            assert_eq!(q.search_depth.as_deref(), Some("advanced"));
            assert_eq!(q.topic.as_deref(), Some("general"));
            assert_eq!(q.days, Some(5));
            assert_eq!(q.time_range.as_deref(), Some("week"));
            assert_eq!(q.max_results, Some(-2));
            assert_eq!(q.include_images, Some(true));
            assert_eq!(q.include_image_descriptions, None);
            assert_eq!(q.include_raw_content, Some(false));
            assert_eq!(q.include_domains, Some(vec!["a.com".to_string(), "b.org".to_string()]));
            assert_eq!(q.exclude_domains, None);
            assert_eq!(q.api_key, None);
        }
        _ => panic!("expected a search"),
    }
}

#[test]
fn search_call_needs_a_string_query() {
    assert_eq!(
        general(plan_call_tool(call("tavily-search", Some(vec![("query", JsonValue::Null)])))),
        "Missing required parameter: query"
    );
    assert_eq!(
        general(plan_call_tool(call("tavily-search", None))),
        "Missing required parameter: query"
    );
}

#[test]
fn extract_call_reads_its_arguments() {
    let p = call(
        "tavily-extract",
        Some(vec![
            ("urls", JsonValue::Array(vec![s("https://a"), JsonValue::Bool(true), s("https://b")])),
            ("extract_depth", s("basic")),
            ("include_images", JsonValue::Bool(true)),
        ]),
    );
    match plan_call_tool(p) {
        Ok(ToolCall::Extract(e)) => {
            assert_eq!(e.urls, vec!["https://a".to_string(), "https://b".to_string()]);
            assert_eq!(e.extract_depth.as_deref(), Some("basic"));
            assert_eq!(e.include_images, Some(true));
            assert_eq!(e.api_key, None);
        }
        _ => panic!("expected an extraction"),
    }
}

#[test]
fn extract_call_refusals() {
    assert_eq!(
        general(plan_call_tool(call("tavily-extract", Some(vec![])))),
        "Missing required parameter: urls"
    );
    assert_eq!(
        general(plan_call_tool(call("tavily-extract", Some(vec![("urls", s("https://a"))])))),
        "Missing required parameter: urls"
    );
    assert_eq!(
        general(plan_call_tool(call("tavily-extract", Some(vec![("urls", JsonValue::Array(vec![]))])))),
        "URLs array cannot be empty"
    );
    assert_eq!(
        general(plan_call_tool(call(
            "tavily-extract",
            Some(vec![("urls", JsonValue::Array(vec![JsonValue::Null]))])
        ))),
        "URLs array cannot be empty"
    );
}

#[test]
fn unknown_tool_is_refused() {
    match plan_call_tool(call("tavily-crawl", None)) {
        Err(McpError::MethodNotFound(m)) => assert_eq!(m, "Unknown tool: tavily-crawl"),
        _ => panic!("expected method not found"),
    }
}

#[test]
fn news_queries_get_the_news_topic() {
    let client = TavilyClient::new("secret".to_string());
    let q = client.prepare_search(search("Latest NEWS about Rust", None));
    assert_eq!(q.topic.as_deref(), Some("news"));
    assert_eq!(q.api_key.as_deref(), Some("secret"));
    assert_eq!(q.query, "Latest NEWS about Rust");
}

#[test]
fn given_topic_is_kept() {
    let client = TavilyClient::new("secret".to_string());
    let q = client.prepare_search(search("news of the day", Some("general")));
    assert_eq!(q.topic.as_deref(), Some("general"));
    let q = client.prepare_search(search("weather", None));
    assert_eq!(q.topic, None);
    assert_eq!(q.api_key.as_deref(), Some("secret"));
}

#[test]
fn preparing_twice_changes_nothing() {
    let client = TavilyClient::new("k".to_string());
    let once = client.prepare_search(search("Newsletter", None));
    let twice = client.prepare_search(search("Newsletter", None));
    let twice = client.prepare_search(twice);
    assert_eq!(once.topic, twice.topic);
    assert_eq!(once.api_key, twice.api_key);
    assert_eq!(twice.topic.as_deref(), Some("news"));
}

#[test]
fn defaults_from_a_lowered_query() {
    let q = apply_search_defaults(search("ignored", None), "k", "breaking news");
    assert_eq!(q.topic.as_deref(), Some("news"));
    let q = apply_search_defaults(search("ignored", None), "k", "NEWS");
    assert_eq!(q.topic, None);
    assert_eq!(q.api_key.as_deref(), Some("k"));
}

#[test]
fn extract_request_gets_the_key() {
    let client = TavilyClient::new("k2".to_string());
    let e = client.prepare_extract(ExtractParams {
        urls: vec!["u".to_string()],
        extract_depth: None,
        include_images: None,
        api_key: Some("other".to_string()),
    });
    assert_eq!(e.api_key.as_deref(), Some("k2"));
    assert_eq!(e.urls, vec!["u".to_string()]);
}

#[test]
fn status_codes() {
    assert!(response_is_success(200));
    assert!(!response_is_success(201));
    assert!(matches!(api_error(401, "401 Unauthorized", "x"), McpError::InvalidApiKey));
    assert!(matches!(api_error(429, "429 Too Many Requests", ""), McpError::UsageLimitExceeded));
    match api_error(500, "500 Internal Server Error", "boom") {
        McpError::General(m) => assert_eq!(m, "Tavily API error: 500 Internal Server Error - boom"),
        _ => panic!("expected a general error"),
    }
}

#[test]
fn answer_becomes_tool_output() {
    let response = TavilyResponse {
        query: "q".to_string(),
        follow_up_questions: None,
        answer: None,
        images: None,
        results: vec![SearchResult {
            title: "T".to_string(),
            url: "U".to_string(),
            content: "C".to_string(),
            score_bits: 0,
            published_date: None,
            raw_content: None,
        }],
    };
    let out = tool_output(&response);
    assert_eq!(out.content.len(), 1);
    assert_eq!(out.content[0].kind, "text");
    assert_eq!(out.content[0].text, "Detailed Results:\n\nTitle: T\nURL: U\nContent: C");
    assert_eq!(out.is_error, None);
}
