use tavily_mcp_rs::mcp::format_results;
use tavily_mcp_rs::types::{SearchResult, TavilyResponse};

fn hit(title: &str, url: &str, content: &str, raw: Option<&str>) -> SearchResult {
    SearchResult {
        title: title.to_string(),
        url: url.to_string(),
        content: content.to_string(),
        score_bits: 0.5f64.to_bits(),
        published_date: None,
        raw_content: raw.map(|r| r.to_string()),
    }
}

fn answer_of(answer: Option<&str>, results: Vec<SearchResult>) -> TavilyResponse {
    TavilyResponse {
        query: "q".to_string(),
        follow_up_questions: None,
        answer: answer.map(|a| a.to_string()),
        images: None,
        results,
    }
}

#[test]
fn format_with_answer_lists_sources_then_details() {
    let response = answer_of(
        Some("Rust is a language."),
        vec![
            hit("Rust", "https://rust-lang.org", "Home page", None),
            hit("Book", "https://doc.rust-lang.org/book", "The book", Some("RAW")),
        ],
    );
    let expected = "Answer: Rust is a language.\n\nSources:\n- Rust: https://rust-lang.org\n- Book: https://doc.rust-lang.org/book\n\nDetailed Results:\n\nTitle: Rust\nURL: https://rust-lang.org\nContent: Home page\n\nTitle: Book\nURL: https://doc.rust-lang.org/book\nContent: The book\nRaw Content: RAW";
    assert_eq!(format_results(&response), expected);
}

#[test]
fn format_without_answer_has_only_details() {
    let response = answer_of(None, vec![hit("T", "U", "C", None)]);
    assert_eq!(format_results(&response), "Detailed Results:\n\nTitle: T\nURL: U\nContent: C");
}

#[test]
fn format_of_empty_answer() {
    let response = answer_of(None, vec![]);
    assert_eq!(format_results(&response), "Detailed Results:");
}

#[test]
fn format_with_answer_and_no_results() {
    let response = answer_of(Some("A"), vec![]);
    assert_eq!(format_results(&response), "Answer: A\n\nSources:\n\nDetailed Results:");
}

#[test]
fn format_keeps_raw_content_per_result() {
    let response = answer_of(None, vec![hit("T", "U", "C", Some("")), hit("T2", "U2", "C2", None)]);
    assert_eq!(
        format_results(&response),
        "Detailed Results:\n\nTitle: T\nURL: U\nContent: C\nRaw Content: \n\nTitle: T2\nURL: U2\nContent: C2"
    );
}
