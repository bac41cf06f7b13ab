use vstd::prelude::*;

use crate::json::{
    bool_of, field, i64_of, items_of, json_array, json_object, json_str, json_str_array, lookup,
    lookup_entry, object1, object2, object3, object4, object5, str_array, str_of, string_items,
    strings_in, view_entries, view_items, JsonNumber, JsonValue, JsonView,
};
use crate::mcp::{format_results, report};
use crate::text::{concat_str, contains_str, lowercase, occurs_in, to_lowercase};
use crate::types::{
    CallToolParams, CallToolParamsView, CallToolResult, Content, ExtractParams, ExtractParamsView,
    McpError, McpErrorView, SearchParams, SearchParamsView, TavilyResponse, Tool,
};

verus! {

// ---------------------------------------------------------------------------
// The tools and the schemas of their arguments

pub const SEARCH_TOOL: &'static str = "tavily-search";

pub const EXTRACT_TOOL: &'static str = "tavily-extract";

pub const SEARCH_TOOL_DESCRIPTION: &'static str = "A powerful web search tool that provides comprehensive, real-time results using Tavily's AI search engine. Returns relevant web content with customizable parameters for result count, content type, and domain filtering. Ideal for gathering current information, news, and detailed web content analysis.";

pub const EXTRACT_TOOL_DESCRIPTION: &'static str = "A powerful web content extraction tool that retrieves and processes raw content from specified URLs, ideal for data collection, content analysis, and research tasks.";

pub const QUERY_DESCRIPTION: &'static str = "Search query";

pub const SEARCH_DEPTH_DESCRIPTION: &'static str = "The depth of the search. It can be 'basic' or 'advanced'";

pub const TOPIC_DESCRIPTION: &'static str = "The category of the search. This will determine which of our agents will be used for the search";

pub const DAYS_DESCRIPTION: &'static str = "The number of days back from the current date to include in the search results. This specifies the time frame of data to be retrieved. Please note that this feature is only available when using the 'news' search topic";

pub const TIME_RANGE_DESCRIPTION: &'static str = "The time range back from the current date to include in the search results. This feature is available for both 'general' and 'news' search topics";

pub const MAX_RESULTS_DESCRIPTION: &'static str = "The maximum number of search results to return";

pub const INCLUDE_IMAGES_DESCRIPTION: &'static str = "Include a list of query-related images in the response";

pub const INCLUDE_IMAGE_DESCRIPTIONS_DESCRIPTION: &'static str = "Include a list of query-related images and their descriptions in the response";

pub const INCLUDE_RAW_CONTENT_DESCRIPTION: &'static str = "Include the cleaned and parsed HTML content of each search result";

pub const INCLUDE_DOMAINS_DESCRIPTION: &'static str = "A list of domains to specifically include in the search results, if the user asks to search on specific sites set this to the domain of the site";

pub const EXCLUDE_DOMAINS_DESCRIPTION: &'static str = "List of domains to specifically exclude, if the user asks to exclude a domain set this to the domain of the site";

pub const URLS_DESCRIPTION: &'static str = "List of URLs to extract content from";

pub const EXTRACT_DEPTH_DESCRIPTION: &'static str = "Depth of extraction - 'basic' or 'advanced', if usrls are linkedin use 'advanced' or if explicitly told to use advanced";

pub const EXTRACT_IMAGES_DESCRIPTION: &'static str = "Include a list of images extracted from the urls in the response";

/// A property of a given JSON type, with its description.
pub open spec fn typed(kind: Seq<char>, description: Seq<char>) -> JsonView {
    JsonView::Object(seq![("type"@, JsonView::Str(kind)), ("description"@, JsonView::Str(description))])
}

/// A string property limited to the given options, with its default.
pub open spec fn choice(options: Seq<Seq<char>>, description: Seq<char>, default: Seq<char>) -> JsonView {
    JsonView::Object(
        seq![
            ("type"@, JsonView::Str("string"@)),
            ("enum"@, str_array(options)),
            ("description"@, JsonView::Str(description)),
            ("default"@, JsonView::Str(default)),
        ],
    )
}

/// A boolean property that defaults to false.
pub open spec fn flag(description: Seq<char>) -> JsonView {
    JsonView::Object(
        seq![
            ("type"@, JsonView::Str("boolean"@)),
            ("description"@, JsonView::Str(description)),
            ("default"@, JsonView::Bool(false)),
        ],
    )
}

/// The schema of a list of strings.
pub open spec fn string_items_schema() -> JsonView {
    JsonView::Object(seq![("type"@, JsonView::Str("string"@))])
}

/// A property that holds a list of strings, defaulting to the empty list.
pub open spec fn domain_list(description: Seq<char>) -> JsonView {
    JsonView::Object(
        seq![
            ("type"@, JsonView::Str("array"@)),
            ("items"@, string_items_schema()),
            ("description"@, JsonView::Str(description)),
            ("default"@, JsonView::Array(Seq::empty())),
        ],
    )
}

/// A whole number as JSON.
pub open spec fn count(n: u64) -> JsonView {
    JsonView::Number(JsonNumber::PosInt(n))
}

/// The properties of the search tool's arguments.
pub open spec fn search_properties_schema() -> JsonView {
    JsonView::Object(
        seq![
            ("query"@, typed("string"@, QUERY_DESCRIPTION@)),
            (
                "search_depth"@,
                choice(seq!["basic"@, "advanced"@], SEARCH_DEPTH_DESCRIPTION@, "basic"@),
            ),
            ("topic"@, choice(seq!["general"@, "news"@], TOPIC_DESCRIPTION@, "general"@)),
            (
                "days"@,
                JsonView::Object(
                    seq![
                        ("type"@, JsonView::Str("number"@)),
                        ("description"@, JsonView::Str(DAYS_DESCRIPTION@)),
                        ("default"@, count(3)),
                    ],
                ),
            ),
            (
                "time_range"@,
                JsonView::Object(
                    seq![
                        ("type"@, JsonView::Str("string"@)),
                        ("description"@, JsonView::Str(TIME_RANGE_DESCRIPTION@)),
                        (
                            "enum"@,
                            str_array(
                                seq![
                                    "day"@,
                                    "week"@,
                                    "month"@,
                                    "year"@,
                                    "d"@,
                                    "w"@,
                                    "m"@,
                                    "y"@,
                                ],
                            ),
                        ),
                    ],
                ),
            ),
            (
                "max_results"@,
                JsonView::Object(
                    seq![
                        ("type"@, JsonView::Str("number"@)),
                        ("description"@, JsonView::Str(MAX_RESULTS_DESCRIPTION@)),
                        ("default"@, count(10)),
                        ("minimum"@, count(5)),
                        ("maximum"@, count(20)),
                    ],
                ),
            ),
            ("include_images"@, flag(INCLUDE_IMAGES_DESCRIPTION@)),
            (
                "include_image_descriptions"@,
                flag(INCLUDE_IMAGE_DESCRIPTIONS_DESCRIPTION@),
            ),
            ("include_raw_content"@, flag(INCLUDE_RAW_CONTENT_DESCRIPTION@)),
            ("include_domains"@, domain_list(INCLUDE_DOMAINS_DESCRIPTION@)),
            ("exclude_domains"@, domain_list(EXCLUDE_DOMAINS_DESCRIPTION@)),
        ],
    )
}

/// The schema of the arguments of the search tool.
pub open spec fn search_schema() -> JsonView {
    JsonView::Object(
        seq![
            ("type"@, JsonView::Str("object"@)),
            ("properties"@, search_properties_schema()),
            ("required"@, str_array(seq!["query"@])),
        ],
    )
}

/// The schema of the arguments of the extract tool.
pub open spec fn extract_schema() -> JsonView {
    JsonView::Object(
        seq![
            ("type"@, JsonView::Str("object"@)),
            (
                "properties"@,
                JsonView::Object(
                    seq![
                        (
                            "urls"@,
                            JsonView::Object(
                                seq![
                                    ("type"@, JsonView::Str("array"@)),
                                    ("items"@, string_items_schema()),
                                    ("description"@, JsonView::Str(URLS_DESCRIPTION@)),
                                ],
                            ),
                        ),
                        (
                            "extract_depth"@,
                            choice(seq!["basic"@, "advanced"@], EXTRACT_DEPTH_DESCRIPTION@, "basic"@),
                        ),
                        ("include_images"@, flag(EXTRACT_IMAGES_DESCRIPTION@)),
                    ],
                ),
            ),
            ("required"@, str_array(seq!["urls"@])),
        ],
    )
}

/// The model of a tool: its name, description and argument schema.
pub struct ToolView {
    pub name: Seq<char>,
    pub description: Seq<char>,
    pub input_schema: JsonView,
}

impl View for Tool {
    type V = ToolView;

    open spec fn view(&self) -> ToolView {
        ToolView { name: self.name@, description: self.description@, input_schema: self.input_schema@ }
    }
}

/// The models of a list of tools.
pub open spec fn view_tools(tools: Seq<Tool>) -> Seq<ToolView> {
    Seq::new(tools.len(), |i: int| tools[i]@)
}

/// The tools that the server offers: search, then extract.
pub open spec fn tool_catalog() -> Seq<ToolView> {
    seq![
        ToolView {
            name: SEARCH_TOOL@,
            description: SEARCH_TOOL_DESCRIPTION@,
            input_schema: search_schema(),
        },
        ToolView {
            name: EXTRACT_TOOL@,
            description: EXTRACT_TOOL_DESCRIPTION@,
            input_schema: extract_schema(),
        },
    ]
}

fn typed_property(kind: &str, description: &str) -> (r: JsonValue)
    ensures
        r@ == typed(kind@, description@),
{
    object2("type", json_str(kind), "description", json_str(description))
}

fn choice_property(options: Vec<&str>, description: &str, default: &str) -> (r: JsonValue)
    ensures
        r@ == choice(options@.map_values(|t: &str| t@), description@, default@),
{
    object4(
        "type",
        json_str("string"),
        "enum",
        json_str_array(options),
        "description",
        json_str(description),
        "default",
        json_str(default),
    )
}

fn flag_property(description: &str) -> (r: JsonValue)
    ensures
        r@ == flag(description@),
{
    object3("type", json_str("boolean"), "description", json_str(description), "default", JsonValue::Bool(false))
}

fn string_items_property() -> (r: JsonValue)
    ensures
        r@ == string_items_schema(),
{
    object1("type", json_str("string"))
}

fn domain_list_property(description: &str) -> (r: JsonValue)
    ensures
        r@ == domain_list(description@),
{
    let empty = Vec::new();
    let none = json_array(empty);
    assert(view_items(empty@) =~= Seq::<JsonView>::empty());
    object4(
        "type",
        json_str("array"),
        "items",
        string_items_property(),
        "description",
        json_str(description),
        "default",
        none,
    )
}

fn count_value(n: u64) -> (r: JsonValue)
    ensures
        r@ == count(n),
{
    JsonValue::Number(JsonNumber::PosInt(n))
}

fn basic_or_advanced() -> (r: Vec<&'static str>)
    ensures
        r@.map_values(|t: &str| t@) == seq!["basic"@, "advanced"@],
{
    let r = vec!["basic", "advanced"];
    assert(r@.map_values(|t: &str| t@) =~= seq!["basic"@, "advanced"@]);
    r
}

fn search_properties() -> (r: JsonValue)
    ensures
        r@ == search_properties_schema(),
{
    let query = typed_property("string", QUERY_DESCRIPTION);
    let depth = choice_property(basic_or_advanced(), SEARCH_DEPTH_DESCRIPTION, "basic");
    let topics = vec!["general", "news"];
    assert(topics@.map_values(|t: &str| t@) =~= seq!["general"@, "news"@]);
    let topic = choice_property(topics, TOPIC_DESCRIPTION, "general");
    let days = object3(
        "type",
        json_str("number"),
        "description",
        json_str(DAYS_DESCRIPTION),
        "default",
        count_value(3),
    );
    let ranges = vec!["day", "week", "month", "year", "d", "w", "m", "y"];
    assert(ranges@.map_values(|t: &str| t@) =~= seq![
        "day"@,
        "week"@,
        "month"@,
        "year"@,
        "d"@,
        "w"@,
        "m"@,
        "y"@,
    ]);
    let time_range = object3(
        "type",
        json_str("string"),
        "description",
        json_str(TIME_RANGE_DESCRIPTION),
        "enum",
        json_str_array(ranges),
    );
    let max_results = object5(
        "type",
        json_str("number"),
        "description",
        json_str(MAX_RESULTS_DESCRIPTION),
        "default",
        count_value(10),
        "minimum",
        count_value(5),
        "maximum",
        count_value(20),
    );
    let entries = vec![
        ("query".to_owned(), query),
        ("search_depth".to_owned(), depth),
        ("topic".to_owned(), topic),
        ("days".to_owned(), days),
        ("time_range".to_owned(), time_range),
        ("max_results".to_owned(), max_results),
        ("include_images".to_owned(), flag_property(INCLUDE_IMAGES_DESCRIPTION)),
        (
            "include_image_descriptions".to_owned(),
            flag_property(INCLUDE_IMAGE_DESCRIPTIONS_DESCRIPTION),
        ),
        ("include_raw_content".to_owned(), flag_property(INCLUDE_RAW_CONTENT_DESCRIPTION)),
        ("include_domains".to_owned(), domain_list_property(INCLUDE_DOMAINS_DESCRIPTION)),
        ("exclude_domains".to_owned(), domain_list_property(EXCLUDE_DOMAINS_DESCRIPTION)),
    ];
    let r = json_object(entries);
    assert(view_entries(entries@) =~= search_properties_schema()->Object_0);
    r
}

fn required(name: &str) -> (r: JsonValue)
    ensures
        r@ == str_array(seq![name@]),
{
    let names = vec![name];
    assert(names@.map_values(|t: &str| t@) =~= seq![name@]);
    json_str_array(names)
}

fn search_input_schema() -> (r: JsonValue)
    ensures
        r@ == search_schema(),
{
    object3("type", json_str("object"), "properties", search_properties(), "required", required("query"))
}

fn extract_input_schema() -> (r: JsonValue)
    ensures
        r@ == extract_schema(),
{
    let urls = object3(
        "type",
        json_str("array"),
        "items",
        string_items_property(),
        "description",
        json_str(URLS_DESCRIPTION),
    );
    let depth = choice_property(basic_or_advanced(), EXTRACT_DEPTH_DESCRIPTION, "basic");
    let images = flag_property(EXTRACT_IMAGES_DESCRIPTION);
    let properties = object3("urls", urls, "extract_depth", depth, "include_images", images);
    object3("type", json_str("object"), "properties", properties, "required", required("urls"))
}

/// The tools that the server offers, with the schemas of their arguments.
pub fn tool_definitions() -> (r: Vec<Tool>)
    ensures
        view_tools(r@) == tool_catalog(),
{
    let search = Tool {
        name: SEARCH_TOOL.to_owned(),
        description: SEARCH_TOOL_DESCRIPTION.to_owned(),
        input_schema: search_input_schema(),
    };
    let extract = Tool {
        name: EXTRACT_TOOL.to_owned(),
        description: EXTRACT_TOOL_DESCRIPTION.to_owned(),
        input_schema: extract_input_schema(),
    };
    let r = vec![search, extract];
    assert(view_tools(r@) =~= tool_catalog());
    r
}


// ---------------------------------------------------------------------------
// Reading the arguments of a tool call

/// A string argument.
pub open spec fn str_arg(args: Seq<(Seq<char>, JsonView)>, key: Seq<char>) -> Option<Seq<char>> {
    match lookup(args, key) {
        Some(v) => str_of(v),
        None => None,
    }
}

/// A boolean argument.
pub open spec fn bool_arg(args: Seq<(Seq<char>, JsonView)>, key: Seq<char>) -> Option<bool> {
    match lookup(args, key) {
        Some(v) => bool_of(v),
        None => None,
    }
}

/// An integer argument that fits in 64 bits, cut to its low 32 bits.
pub open spec fn i32_arg(args: Seq<(Seq<char>, JsonView)>, key: Seq<char>) -> Option<i32> {
    match lookup(args, key) {
        Some(v) => match i64_of(v) {
            Some(n) => Some(n as i32),
            None => None,
        },
        None => None,
    }
}

/// A list argument, read as the strings in it.
pub open spec fn strings_arg(args: Seq<(Seq<char>, JsonView)>, key: Seq<char>) -> Option<Seq<Seq<char>>> {
    match lookup(args, key) {
        Some(v) => match items_of(v) {
            Some(items) => Some(strings_in(items)),
            None => None,
        },
        None => None,
    }
}

fn str_arg_of(args: &Vec<(String, JsonValue)>, key: &str) -> (r: Option<String>)
    ensures
        r.deep_view() == str_arg(view_entries(args@), key@),
{
    match lookup_entry(args, key) {
        Some(v) => match v.as_str() {
            Some(s) => Some(s.to_owned()),
            None => None,
        },
        None => None,
    }
}

fn bool_arg_of(args: &Vec<(String, JsonValue)>, key: &str) -> (r: Option<bool>)
    ensures
        r == bool_arg(view_entries(args@), key@),
{
    match lookup_entry(args, key) {
        Some(v) => v.as_bool(),
        None => None,
    }
}

fn i32_arg_of(args: &Vec<(String, JsonValue)>, key: &str) -> (r: Option<i32>)
    ensures
        r == i32_arg(view_entries(args@), key@),
{
    match lookup_entry(args, key) {
        Some(v) => match v.as_i64() {
            Some(n) => Some(n as i32),
            None => None,
        },
        None => None,
    }
}

fn strings_arg_of(args: &Vec<(String, JsonValue)>, key: &str) -> (r: Option<Vec<String>>)
    ensures
        r.deep_view() == strings_arg(view_entries(args@), key@),
{
    match lookup_entry(args, key) {
        Some(v) => match v.as_array() {
            Some(items) => Some(string_items(items)),
            None => None,
        },
        None => None,
    }
}

/// A request to the API that a tool call asks for.
pub enum ToolCall {
    Search(SearchParams),
    Extract(ExtractParams),
}

/// The model of a request to the API.
pub enum ToolCallView {
    Search(SearchParamsView),
    Extract(ExtractParamsView),
}

impl View for ToolCall {
    type V = ToolCallView;

    open spec fn view(&self) -> ToolCallView {
        match self {
            ToolCall::Search(p) => ToolCallView::Search(p@),
            ToolCall::Extract(p) => ToolCallView::Extract(p@),
        }
    }
}

/// The search request made of a query and the other arguments of a call.
/// The API key is left to be filled in.
pub open spec fn search_request(args: Seq<(Seq<char>, JsonView)>, query: Seq<char>) -> SearchParamsView {
    SearchParamsView {
        query: query,
        search_depth: str_arg(args, "search_depth"@),
        topic: str_arg(args, "topic"@),
        days: i32_arg(args, "days"@),
        time_range: str_arg(args, "time_range"@),
        max_results: i32_arg(args, "max_results"@),
        include_images: bool_arg(args, "include_images"@),
        include_image_descriptions: bool_arg(args, "include_image_descriptions"@),
        include_raw_content: bool_arg(args, "include_raw_content"@),
        include_domains: strings_arg(args, "include_domains"@),
        exclude_domains: strings_arg(args, "exclude_domains"@),
        api_key: None,
    }
}

/// What a tool call asks for: a search when the search tool is called with a
/// string `query`; an extraction when the extract tool is called with a list
/// `urls` that holds at least one string; an error otherwise.
pub open spec fn planned_call(p: CallToolParamsView) -> Result<ToolCallView, McpErrorView> {
    let args = p.arguments;
    if p.name == SEARCH_TOOL@ {
        match str_arg(args, "query"@) {
            Some(query) => Ok(ToolCallView::Search(search_request(args, query))),
            None => Err(McpErrorView::General("Missing required parameter: query"@)),
        }
    } else if p.name == EXTRACT_TOOL@ {
        match strings_arg(args, "urls"@) {
            None => Err(McpErrorView::General("Missing required parameter: urls"@)),
            Some(urls) => if urls.len() == 0 {
                Err(McpErrorView::General("URLs array cannot be empty"@))
            } else {
                Ok(
                    ToolCallView::Extract(
                        ExtractParamsView {
                            urls: urls,
                            extract_depth: str_arg(args, "extract_depth"@),
                            include_images: bool_arg(args, "include_images"@),
                            api_key: None,
                        },
                    ),
                )
            },
        }
    } else {
        Err(McpErrorView::MethodNotFound("Unknown tool: "@ + p.name))
    }
}

/// Reads a tool call: which API request it asks for, or why it is refused.
pub fn plan_call_tool(params: CallToolParams) -> (r: Result<ToolCall, McpError>)
    ensures
        match r {
            Ok(c) => planned_call(params@) == Ok::<ToolCallView, McpErrorView>(c@),
            Err(e) => planned_call(params@) == Err::<ToolCallView, McpErrorView>(e@),
        },
{
    let ghost view = params@;
    let args: Vec<(String, JsonValue)> = match params.arguments {
        Some(a) => a,
        None => Vec::new(),
    };
    assert(view_entries(args@) =~= view.arguments);
    if params.name == SEARCH_TOOL.to_owned() {
        let query = match str_arg_of(&args, "query") {
            Some(q) => q,
            None => {
                return Err(McpError::General("Missing required parameter: query".to_owned()));
            },
        };
        let search = SearchParams {
            query,
            search_depth: str_arg_of(&args, "search_depth"),
            topic: str_arg_of(&args, "topic"),
            days: i32_arg_of(&args, "days"),
            time_range: str_arg_of(&args, "time_range"),
            max_results: i32_arg_of(&args, "max_results"),
            include_images: bool_arg_of(&args, "include_images"),
            include_image_descriptions: bool_arg_of(&args, "include_image_descriptions"),
            include_raw_content: bool_arg_of(&args, "include_raw_content"),
            include_domains: strings_arg_of(&args, "include_domains"),
            exclude_domains: strings_arg_of(&args, "exclude_domains"),
            api_key: None,
        };
        Ok(ToolCall::Search(search))
    } else if params.name == EXTRACT_TOOL.to_owned() {
        let urls = match strings_arg_of(&args, "urls") {
            Some(u) => u,
            None => {
                return Err(McpError::General("Missing required parameter: urls".to_owned()));
            },
        };
        if urls.len() == 0 {
            return Err(McpError::General("URLs array cannot be empty".to_owned()));
        }
        let extract = ExtractParams {
            urls,
            extract_depth: str_arg_of(&args, "extract_depth"),
            include_images: bool_arg_of(&args, "include_images"),
            api_key: None,
        };
        Ok(ToolCall::Extract(extract))
    } else {
        Err(McpError::MethodNotFound(concat_str("Unknown tool: ", params.name.as_str())))
    }
}

/// The result of a tool that got an answer from the API: the report on that
/// answer as the one piece of output.
pub fn tool_output(response: &TavilyResponse) -> (r: CallToolResult)
    ensures
        r.content@.len() == 1,
        r.content@[0].kind@ == "text"@,
        r.content@[0].text@ == report(*response),
        r.is_error is None,
{
    text_result(format_results(response))
}

/// The result of a tool that ran: its text as the one piece of output.
pub fn text_result(text: String) -> (r: CallToolResult)
    ensures
        r.content@.len() == 1,
        r.content@[0].kind@ == "text"@,
        r.content@[0].text == text,
        r.is_error is None,
{
    CallToolResult { content: vec![Content { kind: "text".to_owned(), text }], is_error: None }
}


// ---------------------------------------------------------------------------
// The client

pub const SEARCH_URL: &'static str = "https://api.tavily.com/search";

pub const EXTRACT_URL: &'static str = "https://api.tavily.com/extract";

/// The endpoints of the API, by name.
pub open spec fn api_endpoints() -> Seq<(Seq<char>, Seq<char>)> {
    seq![("search"@, SEARCH_URL@), ("extract"@, EXTRACT_URL@)]
}

/// The text paired with the first entry named `key`, if any.
pub open spec fn lookup_text(table: Seq<(Seq<char>, Seq<char>)>, key: Seq<char>) -> Option<Seq<char>>
    decreases table.len(),
{
    if table.len() == 0 {
        None
    } else if table[0].0 == key {
        Some(table[0].1)
    } else {
        lookup_text(table.drop_first(), key)
    }
}

/// The Tavily API client: the key it sends and the endpoints it calls.
pub struct TavilyClient {
    api_key: String,
    base_urls: Vec<(String, String)>,
}

impl TavilyClient {
    #[verifier::type_invariant]
    spec fn knows_endpoints(self) -> bool {
        self.base_urls.deep_view() == api_endpoints()
    }

    /// The API key that the client sends.
    pub closed spec fn key(self) -> Seq<char> {
        self.api_key@
    }

    /// The endpoints that the client knows, by name.
    pub closed spec fn endpoint_table(self) -> Seq<(Seq<char>, Seq<char>)> {
        self.base_urls.deep_view()
    }

    /// A client that sends `api_key` to the search and extract endpoints.
    pub fn new(api_key: String) -> (r: Self)
        ensures
            r.key() == api_key@,
            r.endpoint_table() == api_endpoints(),
    {
        let mut base_urls: Vec<(String, String)> = Vec::new();
        base_urls.push(("search".to_owned(), SEARCH_URL.to_owned()));
        base_urls.push(("extract".to_owned(), EXTRACT_URL.to_owned()));
        assert(base_urls.deep_view() =~= api_endpoints());
        TavilyClient { api_key, base_urls }
    }

    /// The URL of the endpoint named `name`, if the client knows one.
    pub fn base_url(&self, name: &str) -> (r: Option<&str>)
        ensures
            match r {
                Some(u) => lookup_text(self.endpoint_table(), name@) == Some(u@),
                None => lookup_text(self.endpoint_table(), name@) is None,
            },
    {
        let key = name.to_owned();
        let ghost table = self.base_urls.deep_view();
        let mut i: usize = 0;
        assert(table.skip(0) =~= table);
        while i < self.base_urls.len()
            invariant
                key@ == name@,
                table == self.base_urls.deep_view(),
                i <= self.base_urls.len(),
                lookup_text(table, name@) == lookup_text(table.skip(i as int), name@),
            decreases self.base_urls.len() - i,
        {
            assert(table.skip(i as int)[0] == table[i as int]);
            if self.base_urls[i].0 == key {
                return Some(self.base_urls[i].1.as_str());
            }
            assert(table.skip(i as int).drop_first() =~= table.skip(i + 1));
            i = i + 1;
        }
        assert(table.skip(i as int).len() == 0);
        None
    }

    /// The URL of the search endpoint.
    pub fn search_endpoint(&self) -> (r: &str)
        ensures
            r@ == SEARCH_URL@,
    {
        proof { use_type_invariant(self); }
        match self.base_url("search") {
            Some(u) => u,
            None => {
                proof { assert(false); }
                SEARCH_URL
            },
        }
    }

    /// The URL of the extract endpoint.
    pub fn extract_endpoint(&self) -> (r: &str)
        ensures
            r@ == EXTRACT_URL@,
    {
        proof {
            use_type_invariant(self);
            reveal_strlit("search");
            reveal_strlit("extract");
            assert("search"@.len() != "extract"@.len());
            assert(api_endpoints().drop_first() =~= seq![("extract"@, EXTRACT_URL@)]);
            reveal_with_fuel(lookup_text, 2);
            assert(self.endpoint_table() == api_endpoints());
            assert(lookup_text(api_endpoints(), "extract"@) == Some(EXTRACT_URL@));
        }
        match self.base_url("extract") {
            Some(u) => u,
            None => {
                proof { assert(false); }
                EXTRACT_URL
            },
        }
    }

    /// The search request that is sent for `params`: with the client's API
    /// key, and with the topic set to `news` where the query, in lower case,
    /// holds the word `news` and no topic was given.
    pub fn prepare_search(&self, params: SearchParams) -> (r: SearchParams)
        ensures
            r@ == with_search_defaults(params@, self.key(), lowercase(params.query@)),
    {
        let lowered = to_lowercase(params.query.as_str());
        apply_search_defaults(params, self.api_key.as_str(), lowered.as_str())
    }

    /// The extract request that is sent for `params`: with the client's API key.
    pub fn prepare_extract(&self, params: ExtractParams) -> (r: ExtractParams)
        ensures
            r@ == with_extract_key(params@, self.key()),
    {
        let mut out = params;
        out.api_key = Some(self.api_key.clone());
        out
    }

    /// The tools that the server offers; this never fails.
    pub fn handle_list_tools(&self) -> (r: Result<Vec<Tool>, McpError>)
        ensures
            r matches Ok(tools) && view_tools(tools@) == tool_catalog(),
    {
        Ok(tool_definitions())
    }
}

/// A search request with the API key set, and with the topic set to `news`
/// where the lower-cased query holds `news` and no topic was given.
pub open spec fn with_search_defaults(
    p: SearchParamsView,
    api_key: Seq<char>,
    lowered_query: Seq<char>,
) -> SearchParamsView {
    let keyed = SearchParamsView { api_key: Some(api_key), ..p };
    if occurs_in(lowered_query, "news"@) && p.topic is None {
        SearchParamsView { topic: Some("news"@), ..keyed }
    } else {
        keyed
    }
}

/// An extract request with the API key set.
pub open spec fn with_extract_key(p: ExtractParamsView, api_key: Seq<char>) -> ExtractParamsView {
    ExtractParamsView { api_key: Some(api_key), ..p }
}

/// Sets the API key of a search request, and its topic to `news` where
/// `lowered_query` (the query in lower case) holds `news` and no topic was
/// given.
pub fn apply_search_defaults(params: SearchParams, api_key: &str, lowered_query: &str) -> (r:
    SearchParams)
    ensures
        r@ == with_search_defaults(params@, api_key@, lowered_query@),
{
    let mut out = params;
    out.api_key = Some(api_key.to_owned());
    if contains_str(lowered_query, "news") && out.topic.is_none() {
        out.topic = Some("news".to_owned());
    }
    out
}

// ---------------------------------------------------------------------------
// Reading the API's answers

/// The error for an answer of the API that is not a success.
pub open spec fn status_error(status: u16, status_line: Seq<char>, error_text: Seq<char>) -> McpErrorView {
    if status == 401 {
        McpErrorView::InvalidApiKey
    } else if status == 429 {
        McpErrorView::UsageLimitExceeded
    } else {
        McpErrorView::General("Tavily API error: "@ + status_line + " - "@ + error_text)
    }
}

/// True when the API answered with its result (status 200).
pub fn response_is_success(status: u16) -> (r: bool)
    ensures
        r == (status == 200),
{
    status == 200
}

/// The error for an answer that is not a success: a bad key (401), the usage
/// limit (429), or a general error that shows the status line and the body.
pub fn api_error(status: u16, status_line: &str, error_text: &str) -> (r: McpError)
    requires
        status != 200,
    ensures
        r@ == status_error(status, status_line@, error_text@),
{
    if status == 401 {
        McpError::InvalidApiKey
    } else if status == 429 {
        McpError::UsageLimitExceeded
    } else {
        let head = concat_str("Tavily API error: ", status_line);
        let head = concat_str(head.as_str(), " - ");
        McpError::General(concat_str(head.as_str(), error_text))
    }
}


// ---------------------------------------------------------------------------
// Laws

/// The names that a tool's schema marks as required.
pub open spec fn required_names(schema: JsonView) -> Seq<Seq<char>> {
    match field(schema, "required"@) {
        Some(v) => match items_of(v) {
            Some(items) => strings_in(items),
            None => Seq::empty(),
        },
        None => Seq::empty(),
    }
}

/// A tool call is refused as naming an unknown tool exactly when its name is
/// not the name of an offered tool.
pub proof fn law_offered_tools_are_served(p: CallToolParamsView)
    ensures
        (planned_call(p) is Err && planned_call(p)->Err_0 is MethodNotFound) <==> !(exists|i: int|
            0 <= i < tool_catalog().len() && #[trigger] tool_catalog()[i].name == p.name),
{
    if p.name == SEARCH_TOOL@ {
        assert(tool_catalog()[0].name == p.name);
    } else if p.name == EXTRACT_TOOL@ {
        assert(tool_catalog()[1].name == p.name);
    }
}

/// A call of an offered tool that lacks an argument which the tool's schema
/// marks as required is refused, and the refusal names that argument.
pub proof fn law_required_arguments_are_enforced(
    i: int,
    args: Seq<(Seq<char>, JsonView)>,
    name: Seq<char>,
)
    requires
        0 <= i < tool_catalog().len(),
        required_names(tool_catalog()[i].input_schema).contains(name),
        lookup(args, name) is None,
    ensures
        planned_call(CallToolParamsView { name: tool_catalog()[i].name, arguments: args }) == Err::<
            ToolCallView,
            McpErrorView,
        >(McpErrorView::General("Missing required parameter: "@ + name)),
{
    reveal_strlit("type");
    reveal_strlit("properties");
    reveal_strlit("required");
    reveal_strlit("query");
    reveal_strlit("urls");
    reveal_strlit("tavily-search");
    reveal_strlit("tavily-extract");
    reveal_strlit("Missing required parameter: ");
    reveal_strlit("Missing required parameter: query");
    reveal_strlit("Missing required parameter: urls");
    reveal_with_fuel(lookup, 4);
    reveal_with_fuel(strings_in, 2);
    let search_required = search_schema()->Object_0;
    let extract_required = extract_schema()->Object_0;
    assert(search_required.drop_first().drop_first() =~= seq![search_required[2]]);
    assert(extract_required.drop_first().drop_first() =~= seq![extract_required[2]]);
    assert(search_required.drop_first() =~= seq![search_required[1], search_required[2]]);
    assert(extract_required.drop_first() =~= seq![extract_required[1], extract_required[2]]);
    if i == 0 {
        assert(required_names(search_schema()) =~= seq!["query"@]);
        assert(name == "query"@);
        assert("Missing required parameter: query"@ =~= "Missing required parameter: "@ + "query"@);
        assert(str_arg(args, "query"@) is None);
    } else {
        assert(SEARCH_TOOL@ == "tavily-search"@);
        assert(EXTRACT_TOOL@ == "tavily-extract"@);
        assert(SEARCH_TOOL@.len() != EXTRACT_TOOL@.len());
        assert(strings_arg(args, "urls"@) is None);
        assert(required_names(extract_schema()) =~= seq!["urls"@]);
        assert(name == "urls"@);
        assert("Missing required parameter: urls"@ =~= "Missing required parameter: "@ + "urls"@);
    }
}

/// Preparing a search request a second time changes nothing.
pub proof fn law_search_defaults_idempotent(p: SearchParamsView, api_key: Seq<char>)
    ensures
        ({
            let once = with_search_defaults(p, api_key, lowercase(p.query));
            with_search_defaults(once, api_key, lowercase(once.query)) == once
        }),
{
}

/// Preparing a search request sets the API key, keeps a topic that was
/// given, sets no topic but `news`, and leaves every other field as it was.
pub proof fn law_search_defaults_preserve_request(
    p: SearchParamsView,
    api_key: Seq<char>,
    lowered_query: Seq<char>,
)
    ensures
        ({
            let q = with_search_defaults(p, api_key, lowered_query);
            &&& q.api_key == Some(api_key)
            &&& p.topic is Some ==> q.topic == p.topic
            &&& q.topic != p.topic ==> q.topic == Some("news"@)
            &&& q == SearchParamsView { api_key: Some(api_key), topic: q.topic, ..p }
        }),
{
}


/// Whatever arguments a tool call carries, the request sent to the API
/// carries the client's own API key.
pub proof fn law_client_key_always_sent(p: CallToolParamsView, api_key: Seq<char>)
    ensures
        planned_call(p) matches Ok(ToolCallView::Search(q)) ==> with_search_defaults(
            q,
            api_key,
            lowercase(q.query),
        ).api_key == Some(api_key),
        planned_call(p) matches Ok(ToolCallView::Extract(e)) ==> with_extract_key(e, api_key).api_key
            == Some(api_key),
{
}


/// The text of an argument that is a JSON string; nothing for an argument
/// that is absent or of another kind.
pub open spec fn text_member(args: Seq<(Seq<char>, JsonView)>, key: Seq<char>) -> Option<Seq<char>> {
    match lookup(args, key) {
        Some(JsonView::Str(t)) => Some(t),
        _ => None,
    }
}

/// A planned search carries the call's `query`, and each text option
/// (`topic`, `search_depth`, `time_range`) is exactly the argument of that
/// name where it is a string, and absent where the call gives none; no API
/// key is taken from the call. A planned extraction carries the call's
/// `extract_depth` the same way, and at least one URL.
pub proof fn law_call_arguments_pass_through(p: CallToolParamsView)
    ensures
        planned_call(p) matches Ok(ToolCallView::Search(q)) ==> {
            &&& p.name == SEARCH_TOOL@
            &&& lookup(p.arguments, "query"@) == Some(JsonView::Str(q.query))
            &&& q.topic == text_member(p.arguments, "topic"@)
            &&& q.search_depth == text_member(p.arguments, "search_depth"@)
            &&& q.time_range == text_member(p.arguments, "time_range"@)
            &&& (lookup(p.arguments, "topic"@) is None ==> q.topic is None)
            &&& q.api_key is None
        },
        planned_call(p) matches Ok(ToolCallView::Extract(e)) ==> {
            &&& p.name == EXTRACT_TOOL@
            &&& e.urls.len() > 0
            &&& e.extract_depth == text_member(p.arguments, "extract_depth"@)
            &&& e.api_key is None
        },
{
}

/// A search gets the `news` topic only where it asked for it or where its
/// lower-cased query holds the four letters `news` in a row; a search with no
/// topic whose lower-cased query holds no `news` keeps no topic, and one
/// whose query holds it gets `news`.
pub proof fn law_news_topic_only_for_news(
    p: SearchParamsView,
    api_key: Seq<char>,
    lowered_query: Seq<char>,
)
    ensures
        ({
            let q = with_search_defaults(p, api_key, lowered_query);
            let says_news = exists|i: int|
                0 <= i && i + 4 <= lowered_query.len() && #[trigger] lowered_query.subrange(i, i + 4)
                    == "news"@;
            &&& q.topic == Some("news"@) ==> p.topic == Some("news"@) || says_news
            &&& p.topic is None && !says_news ==> q.topic is None
            &&& p.topic is None && says_news ==> q.topic == Some("news"@)
        }),
{
    reveal_strlit("news");
    assert("news"@.len() == 4);
}

/// Preparing an extract request sets its API key to the client's and keeps
/// the URLs, the depth and the image option as they were.
pub proof fn law_extract_request_kept(p: ExtractParamsView, api_key: Seq<char>)
    ensures
        ({
            let q = with_extract_key(p, api_key);
            &&& q.api_key == Some(api_key)
            &&& q.urls == p.urls
            &&& q.extract_depth == p.extract_depth
            &&& q.include_images == p.include_images
        }),
{
}

/// The member `key` of a document, where there is a document.
pub open spec fn member(v: Option<JsonView>, key: Seq<char>) -> Option<JsonView> {
    match v {
        Some(x) => field(x, key),
        None => None,
    }
}

/// The options of the offered tools: the search topic is one of `general`
/// and `news` (by default `general`); the search depth and the extract depth
/// are each one of `basic` and `advanced` (by default `basic`).
pub proof fn law_tool_options()
    ensures
        ({
            let search_props = member(Some(tool_catalog()[0].input_schema), "properties"@);
            let extract_props = member(Some(tool_catalog()[1].input_schema), "properties"@);
            let levels = JsonView::Array(seq![JsonView::Str("basic"@), JsonView::Str("advanced"@)]);
            &&& member(member(search_props, "topic"@), "enum"@) == Some(
                JsonView::Array(seq![JsonView::Str("general"@), JsonView::Str("news"@)]),
            )
            &&& member(member(search_props, "topic"@), "default"@) == Some(JsonView::Str("general"@))
            &&& member(member(search_props, "search_depth"@), "enum"@) == Some(levels)
            &&& member(member(search_props, "search_depth"@), "default"@) == Some(
                JsonView::Str("basic"@),
            )
            &&& member(member(extract_props, "extract_depth"@), "enum"@) == Some(levels)
            &&& member(member(extract_props, "extract_depth"@), "default"@) == Some(
                JsonView::Str("basic"@),
            )
        }),
{
    reveal_strlit("type");
    reveal_strlit("properties");
    reveal_strlit("query");
    reveal_strlit("search_depth");
    reveal_strlit("topic");
    reveal_strlit("urls");
    reveal_strlit("extract_depth");
    reveal_strlit("enum");
    reveal_strlit("description");
    reveal_strlit("default");
    reveal_with_fuel(lookup, 5);
    assert("type"@.len() != "properties"@.len());
    assert("query"@[0] != "topic"@[0]);
    assert("query"@.len() != "search_depth"@.len());
    assert("search_depth"@.len() != "topic"@.len());
    assert("urls"@.len() != "extract_depth"@.len());
    assert("type"@[0] != "enum"@[0]);
    assert("type"@[0] != "default"@[0]);
    assert("enum"@[0] != "default"@[0]);
    assert("description"@[0] != "default"@[1]);
    assert("description"@.len() != "default"@.len());
    let two = seq!["basic"@, "advanced"@];
    assert(str_array(two)->Array_0 =~= seq![JsonView::Str("basic"@), JsonView::Str("advanced"@)]);
    assert(str_array(seq!["general"@, "news"@])->Array_0 =~= seq![
        JsonView::Str("general"@),
        JsonView::Str("news"@),
    ]);
    let top = search_schema()->Object_0;
    assert(top.drop_first() =~= seq![top[1], top[2]]);
    let etop = extract_schema()->Object_0;
    assert(etop.drop_first() =~= seq![etop[1], etop[2]]);
    let props = search_properties_schema()->Object_0;
    assert(props.drop_first() =~= props.subrange(1, props.len() as int));
    assert(props.drop_first().drop_first() =~= props.subrange(2, props.len() as int));
    let eprops = extract_schema()->Object_0[1].1->Object_0;
    assert(eprops.drop_first() =~= seq![eprops[1], eprops[2]]);
    let c = choice(two, SEARCH_DEPTH_DESCRIPTION@, "basic"@)->Object_0;
    let ce = choice(two, EXTRACT_DEPTH_DESCRIPTION@, "basic"@)->Object_0;
    let ct = choice(seq!["general"@, "news"@], TOPIC_DESCRIPTION@, "general"@)->Object_0;
    assert(c.drop_first() =~= seq![c[1], c[2], c[3]]);
    assert(c.drop_first().drop_first() =~= seq![c[2], c[3]]);
    assert(c.drop_first().drop_first().drop_first() =~= seq![c[3]]);
    assert(ce.drop_first() =~= seq![ce[1], ce[2], ce[3]]);
    assert(ce.drop_first().drop_first() =~= seq![ce[2], ce[3]]);
    assert(ce.drop_first().drop_first().drop_first() =~= seq![ce[3]]);
    assert(ct.drop_first() =~= seq![ct[1], ct[2], ct[3]]);
    assert(ct.drop_first().drop_first() =~= seq![ct[2], ct[3]]);
    assert(ct.drop_first().drop_first().drop_first() =~= seq![ct[3]]);
    let levels = JsonView::Array(seq![JsonView::Str("basic"@), JsonView::Str("advanced"@)]);
    assert(str_array(two) == levels);
    assert(str_array(seq!["general"@, "news"@]) == JsonView::Array(
        seq![JsonView::Str("general"@), JsonView::Str("news"@)],
    ));
    assert(tool_catalog()[0].input_schema == search_schema());
    assert(field(search_schema(), "properties"@) == Some(search_properties_schema()));
    assert(field(search_properties_schema(), "topic"@) == Some(
        choice(seq!["general"@, "news"@], TOPIC_DESCRIPTION@, "general"@),
    ));
    assert(field(search_properties_schema(), "search_depth"@) == Some(
        choice(two, SEARCH_DEPTH_DESCRIPTION@, "basic"@),
    ));
    assert(field(choice(two, SEARCH_DEPTH_DESCRIPTION@, "basic"@), "enum"@) == Some(levels));
    assert(field(extract_schema(), "properties"@) == Some(extract_schema()->Object_0[1].1));
    assert(field(extract_schema()->Object_0[1].1, "extract_depth"@) == Some(
        choice(two, EXTRACT_DEPTH_DESCRIPTION@, "basic"@),
    ));
}

}
