use vstd::prelude::*;

use crate::json::{field, str_of, JsonValue, JsonView};
use crate::text::{
    concat_str, join_lines, join_with_newlines, lemma_join_concat, lemma_occurs_between, occurs_in,
};
use crate::types::{
    error_message, CallToolResponse, CallToolResult, ListToolsRequest, ListToolsResponse,
    ListToolsResult, McpError, SearchResult, TavilyResponse, Tool,
};

verus! {

/// The transport that serves requests read line by line from standard input.
pub struct StdioServerTransport;

impl StdioServerTransport {
    /// A transport on the process's standard input and output.
    pub fn new() -> (r: Self) {
        StdioServerTransport
    }
}

// ---------------------------------------------------------------------------
// Formatting search answers

/// The source list: one line per result, with its title and URL.
pub open spec fn source_lines(results: Seq<SearchResult>) -> Seq<Seq<char>> {
    Seq::new(results.len(), |i: int| "- "@ + results[i].title@ + ": "@ + results[i].url@)
}

/// The detailed lines of one result.
pub open spec fn detail_lines(r: SearchResult) -> Seq<Seq<char>> {
    seq!["\nTitle: "@ + r.title@, "URL: "@ + r.url@, "Content: "@ + r.content@] + match r.raw_content {
        Some(raw) => seq!["Raw Content: "@ + raw@],
        None => Seq::empty(),
    }
}

/// The detailed lines of all results, result after result.
pub open spec fn details(results: Seq<SearchResult>) -> Seq<Seq<char>>
    decreases results.len(),
{
    if results.len() == 0 {
        Seq::empty()
    } else {
        details(results.drop_last()) + detail_lines(results.last())
    }
}

/// The lines of the report on an answer: where the API gave a direct answer,
/// that answer and the list of sources first; then the detailed results.
pub open spec fn report_lines(response: TavilyResponse) -> Seq<Seq<char>> {
    let head = match response.answer {
        Some(a) => seq!["Answer: "@ + a@, "\nSources:"@] + source_lines(response.results@) + seq![
            Seq::<char>::empty(),
        ],
        None => Seq::empty(),
    };
    head + seq!["Detailed Results:"@] + details(response.results@)
}

/// The report on an answer, as one text.
pub open spec fn report(response: TavilyResponse) -> Seq<char> {
    join_lines(report_lines(response))
}

/// The report opens with the direct answer where there is one, and its
/// detailed section follows the answer, the source list and a blank line.
pub proof fn law_report_sections(response: TavilyResponse)
    ensures
        ({
            let lines = report_lines(response);
            let n = response.results@.len() as int;
            match response.answer {
                Some(a) => {
                    &&& lines[0] == "Answer: "@ + a@
                    &&& lines[1] == "\nSources:"@
                    &&& lines[n + 2] == Seq::<char>::empty()
                    &&& lines[n + 3] == "Detailed Results:"@
                    &&& lines.len() == n + 4 + details(response.results@).len()
                },
                None => {
                    &&& lines[0] == "Detailed Results:"@
                    &&& lines.len() == 1 + details(response.results@).len()
                },
            }
        }),
{
}

proof fn lemma_details_concat(a: Seq<SearchResult>, b: Seq<SearchResult>)
    ensures
        details(a + b) == details(a) + details(b),
    decreases b.len(),
{
    if b.len() == 0 {
        assert(a + b =~= a);
        assert(details(a) + details(b) =~= details(a));
    } else {
        lemma_details_concat(a, b.drop_last());
        assert((a + b).drop_last() =~= a + b.drop_last());
        assert((a + b).last() == b.last());
        assert(details(a) + details(b.drop_last()) + detail_lines(b.last()) =~= details(a) + (
        details(b.drop_last()) + detail_lines(b.last())));
    }
}

proof fn lemma_details_len(results: Seq<SearchResult>)
    ensures
        details(results).len() >= 3 * results.len(),
    decreases results.len(),
{
    if results.len() > 0 {
        lemma_details_len(results.drop_last());
    }
}

/// Every result of an answer appears in the report text as its block of
/// title, URL and content lines, and the report has at least three lines per
/// result besides its heading.
pub proof fn law_report_holds_every_result(response: TavilyResponse, i: int)
    requires
        0 <= i < response.results@.len(),
    ensures
        ({
            let r = response.results@[i];
            occurs_in(
                report(response),
                ("\nTitle: "@ + r.title@) + seq!['\n'] + ("URL: "@ + r.url@) + seq!['\n'] + (
                "Content: "@ + r.content@),
            )
        }),
        report_lines(response).len() >= 3 * response.results@.len() + 1,
{
    let rs = response.results@;
    let r = rs[i];
    let l1 = "\nTitle: "@ + r.title@;
    let l2 = "URL: "@ + r.url@;
    let l3 = "Content: "@ + r.content@;
    let block = seq![l1, l2, l3];
    let raw = match r.raw_content {
        Some(raw) => seq!["Raw Content: "@ + raw@],
        None => Seq::<Seq<char>>::empty(),
    };
    assert(rs =~= rs.take(i) + (seq![r] + rs.skip(i + 1)));
    lemma_details_concat(rs.take(i), seq![r] + rs.skip(i + 1));
    lemma_details_concat(seq![r], rs.skip(i + 1));
    assert(seq![r].drop_last() =~= Seq::<SearchResult>::empty());
    assert(seq![r].last() == r);
    assert(details(Seq::<SearchResult>::empty()) =~= Seq::<Seq<char>>::empty());
    assert(details(seq![r]) =~= detail_lines(r));
    lemma_details_len(rs);
    let head = match response.answer {
        Some(a) => seq!["Answer: "@ + a@, "\nSources:"@] + source_lines(rs) + seq![
            Seq::<char>::empty(),
        ],
        None => Seq::<Seq<char>>::empty(),
    };
    let x = head + seq!["Detailed Results:"@] + details(rs.take(i));
    let y = raw + details(rs.skip(i + 1));
    assert(report_lines(response) =~= x + (block + y));
    lemma_join_concat(x, block + y);
    lemma_join_concat(block, y);
    assert(block.drop_last() =~= seq![l1, l2]);
    assert(seq![l1, l2].drop_last() =~= seq![l1]);
    assert(join_lines(seq![l1]) == l1);
    assert(join_lines(seq![l1, l2]) == l1 + seq!['\n'] + l2);
    assert(join_lines(block) == l1 + seq!['\n'] + l2 + seq!['\n'] + l3);
    let needle = l1 + seq!['\n'] + l2 + seq!['\n'] + l3;
    let suffix = if y.len() == 0 {
        Seq::<char>::empty()
    } else {
        seq!['\n'] + join_lines(y)
    };
    assert(report(response) =~= (join_lines(x) + seq!['\n']) + needle + suffix);
    lemma_occurs_between(join_lines(x) + seq!['\n'], needle, suffix);
}

/// Renders an API answer as the text that a tool call returns.
pub fn format_results(response: &TavilyResponse) -> (r: String)
    ensures
        r@ == report(*response),
{
    let mut output: Vec<String> = Vec::new();
    let results = &response.results;
    match &response.answer {
        Some(answer) => {
            let first = concat_str("Answer: ", answer.as_str());
            let second = "\nSources:".to_owned();
            output.push(first);
            output.push(second);
            assert(output.deep_view() =~= seq![first@, second@]);
            let ghost start = output.deep_view();
            let mut i: usize = 0;
            while i < results.len()
                invariant
                    i <= results.len(),
                    results == &response.results,
                    output.deep_view() == start + source_lines(results@).take(i as int),
                decreases results.len() - i,
            {
                let line = concat_str(&concat_str("- ", results[i].title.as_str()), ": ");
                let line = concat_str(&line, results[i].url.as_str());
                let ghost before = output.deep_view();
                output.push(line);
                assert(output.deep_view() =~= before.push(line@));
                assert(source_lines(results@).take(i + 1) =~= source_lines(results@).take(
                    i as int,
                ).push(line@));
                assert(output.deep_view() =~= start + source_lines(results@).take(i + 1));
                i = i + 1;
            }
            assert(source_lines(results@).take(results.len() as int) =~= source_lines(results@));
            let ghost before = output.deep_view();
            output.push(String::new());
            assert(output.deep_view() =~= before.push(Seq::<char>::empty()));
        },
        None => {},
    }
    let ghost head = output.deep_view();
    assert(head =~= match response.answer {
        Some(a) => seq!["Answer: "@ + a@, "\nSources:"@] + source_lines(response.results@) + seq![
            Seq::<char>::empty(),
        ],
        None => Seq::<Seq<char>>::empty(),
    });
    output.push("Detailed Results:".to_owned());
    let ghost start = output.deep_view();
    let mut i: usize = 0;
    while i < results.len()
        invariant
            i <= results.len(),
            results == &response.results,
            output.deep_view() == start + details(results@.take(i as int)),
        decreases results.len() - i,
    {
        let ghost before = output.deep_view();
        let result = &results[i];
        output.push(concat_str("\nTitle: ", result.title.as_str()));
        output.push(concat_str("URL: ", result.url.as_str()));
        output.push(concat_str("Content: ", result.content.as_str()));
        match &result.raw_content {
            Some(raw) => {
                output.push(concat_str("Raw Content: ", raw.as_str()));
            },
            None => {},
        }
        assert(results@.take(i + 1).drop_last() =~= results@.take(i as int));
        assert(output.deep_view() =~= before + detail_lines(*result));
        i = i + 1;
    }
    assert(results@.take(results.len() as int) =~= results@);
    assert(output.deep_view() =~= report_lines(*response));
    join_with_newlines(&output)
}


// ---------------------------------------------------------------------------
// Answering requests

/// What the server sends back for one request line.
pub enum ServerReply {
    /// The list of tools.
    Tools(ListToolsResponse),
    /// The output of a tool that ran.
    ToolOutput(CallToolResponse),
    /// A tool that failed: the request's id and the error text, sent as a
    /// tool result marked as an error.
    ToolFailure { id: String, text: String },
    /// A protocol error: the request's id where one is known, the JSON-RPC
    /// error code and a message.
    Failure { request_id: Option<String>, code: i32, message: String },
}

/// How a parsed request line is to be served.
pub enum Route {
    /// Decode it as a request for the list of tools and answer it.
    ListTools,
    /// Decode it as a request to run a tool and answer it.
    CallTool,
    /// Send this reply and nothing more.
    Reply(ServerReply),
}

/// The JSON-RPC error code for a method that the server does not know.
pub const METHOD_NOT_FOUND: i32 = -32601;

/// The JSON-RPC error code for a line that is not JSON.
pub const PARSE_ERROR: i32 = -32700;

/// The method named by a request: its `method` member where that is a
/// string, else the empty string.
pub open spec fn method_of(request: JsonView) -> Seq<char> {
    match field(request, "method"@) {
        Some(m) => match str_of(m) {
            Some(s) => s,
            None => Seq::empty(),
        },
        None => Seq::empty(),
    }
}

/// The id of a request for an error reply: its `id` member where that is a
/// string, else `"0"`.
pub open spec fn id_or_zero(request: JsonView) -> Seq<char> {
    match field(request, "id"@) {
        Some(m) => match str_of(m) {
            Some(s) => s,
            None => "0"@,
        },
        None => "0"@,
    }
}

/// The method named by a request (`value["method"]` as a string, or empty).
pub fn request_method(request: &JsonValue) -> (r: String)
    ensures
        r@ == method_of(request@),
{
    match request.get("method") {
        Some(m) => match m.as_str() {
            Some(s) => s.to_owned(),
            None => String::new(),
        },
        None => String::new(),
    }
}

/// Decides how a parsed request is served: `list_tools` and `call_tool` go
/// to the server; any other method is answered with a method-not-found
/// error that carries the request's id (or `"0"`).
pub fn route_request(request: &JsonValue) -> (r: Route)
    ensures
        method_of(request@) == "list_tools"@ ==> r is ListTools,
        method_of(request@) == "call_tool"@ ==> r is CallTool,
        method_of(request@) != "list_tools"@ && method_of(request@) != "call_tool"@ ==> (
        r matches Route::Reply(ServerReply::Failure { request_id: Some(id), code, message }) && id@
            == id_or_zero(request@) && code == METHOD_NOT_FOUND && message@ == "Unknown method: "@
            + method_of(request@)),
{
    let method = request_method(request);
    proof {
        reveal_strlit("list_tools");
        reveal_strlit("call_tool");
        assert("list_tools"@.len() != "call_tool"@.len());
    }
    if method == "list_tools".to_owned() {
        return Route::ListTools;
    }
    if method == "call_tool".to_owned() {
        return Route::CallTool;
    }
    let id = match request.get("id") {
        Some(v) => match v.as_str() {
            Some(s) => s.to_owned(),
            None => "0".to_owned(),
        },
        None => "0".to_owned(),
    };
    Route::Reply(
        ServerReply::Failure {
            request_id: Some(id),
            code: METHOD_NOT_FOUND,
            message: concat_str("Unknown method: ", method.as_str()),
        },
    )
}

/// The reply to a line that is not JSON: a parse error with no id, whose
/// message carries the parser's complaint.
pub fn invalid_json_reply(parse_error: &str) -> (r: ServerReply)
    ensures
        r matches ServerReply::Failure { request_id: None, code, message } && code == PARSE_ERROR
            && message@ == "Invalid JSON: "@ + parse_error@,
{
    ServerReply::Failure { request_id: None, code: PARSE_ERROR, message: concat_str("Invalid JSON: ", parse_error) }
}

/// The reply to a request for the list of tools.
pub fn list_tools_reply(request: ListToolsRequest, tools: Vec<Tool>) -> (r: ServerReply)
    ensures
        r matches ServerReply::Tools(resp) && resp.jsonrpc@ == "2.0"@ && resp.id@ == request.id@
            && resp.result.tools == tools,
{
    ServerReply::Tools(
        ListToolsResponse {
            jsonrpc: "2.0".to_owned(),
            id: request.id,
            result: ListToolsResult { tools },
        },
    )
}

/// The reply to a request to run a tool: the tool's result, or the error
/// shown as an error result whose text is `Error: ` and the error's message.
pub fn call_tool_reply(id: String, outcome: Result<CallToolResult, McpError>) -> (r: ServerReply)
    ensures
        outcome matches Ok(result) ==> (r matches ServerReply::ToolOutput(resp) && resp.jsonrpc@
            == "2.0"@ && resp.id@ == id@ && resp.result == result),
        outcome matches Err(e) ==> (r matches ServerReply::ToolFailure { id: rid, text } && rid@
            == id@ && text@ == "Error: "@ + error_message(e@)),
{
    match outcome {
        Ok(result) => ServerReply::ToolOutput(
            CallToolResponse { jsonrpc: "2.0".to_owned(), id, result },
        ),
        Err(e) => {
            let message = e.message();
            ServerReply::ToolFailure { id, text: concat_str("Error: ", message.as_str()) }
        },
    }
}

}
