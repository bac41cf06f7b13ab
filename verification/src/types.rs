use vstd::prelude::*;

use crate::json::{view_entries, JsonValue, JsonView};
use crate::text::concat_str;

verus! {

/// An answer of the Tavily search or extract API.
pub struct TavilyResponse {
    pub query: String,
    pub follow_up_questions: Option<Vec<String>>,
    pub answer: Option<String>,
    pub images: Option<Vec<ImageResult>>,
    pub results: Vec<SearchResult>,
}

/// An image in an API answer: a bare URL, or a URL with a description.
pub enum ImageResult {
    Url(String),
    DetailedImage(DetailedImage),
}

/// An image URL with an optional description.
pub struct DetailedImage {
    pub url: String,
    pub description: Option<String>,
}

/// One search hit. The relevance score is kept as the IEEE-754 bit pattern
/// of the double that the API sent.
pub struct SearchResult {
    pub title: String,
    pub url: String,
    pub content: String,
    pub score_bits: u64,
    pub published_date: Option<String>,
    pub raw_content: Option<String>,
}

/// The body of a request to the search endpoint.
pub struct SearchParams {
    pub query: String,
    pub search_depth: Option<String>,
    pub topic: Option<String>,
    pub days: Option<i32>,
    pub time_range: Option<String>,
    pub max_results: Option<i32>,
    pub include_images: Option<bool>,
    pub include_image_descriptions: Option<bool>,
    pub include_raw_content: Option<bool>,
    pub include_domains: Option<Vec<String>>,
    pub exclude_domains: Option<Vec<String>>,
    pub api_key: Option<String>,
}

/// The model of a search request.
pub struct SearchParamsView {
    pub query: Seq<char>,
    pub search_depth: Option<Seq<char>>,
    pub topic: Option<Seq<char>>,
    pub days: Option<i32>,
    pub time_range: Option<Seq<char>>,
    pub max_results: Option<i32>,
    pub include_images: Option<bool>,
    pub include_image_descriptions: Option<bool>,
    pub include_raw_content: Option<bool>,
    pub include_domains: Option<Seq<Seq<char>>>,
    pub exclude_domains: Option<Seq<Seq<char>>>,
    pub api_key: Option<Seq<char>>,
}

impl View for SearchParams {
    type V = SearchParamsView;

    open spec fn view(&self) -> SearchParamsView {
        SearchParamsView {
            query: self.query@,
            search_depth: self.search_depth.deep_view(),
            topic: self.topic.deep_view(),
            days: self.days,
            time_range: self.time_range.deep_view(),
            max_results: self.max_results,
            include_images: self.include_images,
            include_image_descriptions: self.include_image_descriptions,
            include_raw_content: self.include_raw_content,
            include_domains: self.include_domains.deep_view(),
            exclude_domains: self.exclude_domains.deep_view(),
            api_key: self.api_key.deep_view(),
        }
    }
}

/// The body of a request to the extract endpoint.
pub struct ExtractParams {
    pub urls: Vec<String>,
    pub extract_depth: Option<String>,
    pub include_images: Option<bool>,
    pub api_key: Option<String>,
}

/// The model of an extract request.
pub struct ExtractParamsView {
    pub urls: Seq<Seq<char>>,
    pub extract_depth: Option<Seq<char>>,
    pub include_images: Option<bool>,
    pub api_key: Option<Seq<char>>,
}

impl View for ExtractParams {
    type V = ExtractParamsView;

    open spec fn view(&self) -> ExtractParamsView {
        ExtractParamsView {
            urls: self.urls.deep_view(),
            extract_depth: self.extract_depth.deep_view(),
            include_images: self.include_images,
            api_key: self.api_key.deep_view(),
        }
    }
}

/// The errors of the server. The variants that wrap a lower-level failure
/// hold that failure's message.
#[derive(Debug)]
pub enum McpError {
    MethodNotFound(String),
    InvalidApiKey,
    UsageLimitExceeded,
    HttpError(String),
    IoError(String),
    JsonError(String),
    General(String),
}

/// The model of a server error.
pub enum McpErrorView {
    MethodNotFound(Seq<char>),
    InvalidApiKey,
    UsageLimitExceeded,
    HttpError(Seq<char>),
    IoError(Seq<char>),
    JsonError(Seq<char>),
    General(Seq<char>),
}

impl View for McpError {
    type V = McpErrorView;

    open spec fn view(&self) -> McpErrorView {
        match self {
            McpError::MethodNotFound(s) => McpErrorView::MethodNotFound(s@),
            McpError::InvalidApiKey => McpErrorView::InvalidApiKey,
            McpError::UsageLimitExceeded => McpErrorView::UsageLimitExceeded,
            McpError::HttpError(s) => McpErrorView::HttpError(s@),
            McpError::IoError(s) => McpErrorView::IoError(s@),
            McpError::JsonError(s) => McpErrorView::JsonError(s@),
            McpError::General(s) => McpErrorView::General(s@),
        }
    }
}

/// The text by which an error is shown to a client.
pub open spec fn error_message(e: McpErrorView) -> Seq<char> {
    match e {
        McpErrorView::MethodNotFound(s) => "Method not found: "@ + s,
        McpErrorView::InvalidApiKey => "Invalid API key"@,
        McpErrorView::UsageLimitExceeded => "Usage limit exceeded"@,
        McpErrorView::HttpError(s) => "HTTP error: "@ + s,
        McpErrorView::IoError(s) => "IO error: "@ + s,
        McpErrorView::JsonError(s) => "JSON error: "@ + s,
        McpErrorView::General(s) => "General error: "@ + s,
    }
}

impl McpError {
    /// The text by which the error is shown to a client.
    pub fn message(&self) -> (r: String)
        ensures
            r@ == error_message(self@),
    {
        match self {
            McpError::MethodNotFound(s) => concat_str("Method not found: ", s.as_str()),
            McpError::InvalidApiKey => "Invalid API key".to_owned(),
            McpError::UsageLimitExceeded => "Usage limit exceeded".to_owned(),
            McpError::HttpError(s) => concat_str("HTTP error: ", s.as_str()),
            McpError::IoError(s) => concat_str("IO error: ", s.as_str()),
            McpError::JsonError(s) => concat_str("JSON error: ", s.as_str()),
            McpError::General(s) => concat_str("General error: ", s.as_str()),
        }
    }
}

/// A tool that the server offers, with the JSON schema of its arguments.
pub struct Tool {
    pub name: String,
    pub description: String,
    pub input_schema: JsonValue,
}

/// A request for the list of tools.
pub struct ListToolsRequest {
    pub jsonrpc: String,
    pub method: String,
    pub id: String,
}

/// The answer to a request for the list of tools.
pub struct ListToolsResponse {
    pub jsonrpc: String,
    pub id: String,
    pub result: ListToolsResult,
}

/// The tools that the server offers.
pub struct ListToolsResult {
    pub tools: Vec<Tool>,
}

/// A request to run a tool.
pub struct CallToolRequest {
    pub jsonrpc: String,
    pub method: String,
    pub id: String,
    pub params: CallToolParams,
}

/// The tool to run and its named arguments. The arguments come from a JSON
/// object, so no name occurs twice.
pub struct CallToolParams {
    pub name: String,
    pub arguments: Option<Vec<(String, JsonValue)>>,
}

/// The model of a tool call: its name and its arguments (none given reads as
/// an empty set of arguments).
pub struct CallToolParamsView {
    pub name: Seq<char>,
    pub arguments: Seq<(Seq<char>, JsonView)>,
}

impl View for CallToolParams {
    type V = CallToolParamsView;

    open spec fn view(&self) -> CallToolParamsView {
        CallToolParamsView {
            name: self.name@,
            arguments: match self.arguments {
                Some(a) => view_entries(a@),
                None => Seq::empty(),
            },
        }
    }
}

/// The answer to a request to run a tool.
pub struct CallToolResponse {
    pub jsonrpc: String,
    pub id: String,
    pub result: CallToolResult,
}

/// What a tool produced, and whether it failed.
pub struct CallToolResult {
    pub content: Vec<Content>,
    pub is_error: Option<bool>,
}

/// One piece of tool output; `kind` is the piece's `type` on the wire.
pub struct Content {
    pub kind: String,
    pub text: String,
}

}
