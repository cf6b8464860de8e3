use reddit_search::query::{build_url, SearchOptions, SearchType};

fn full_criteria() -> SearchOptions {
    SearchOptions {
        author: Some("some_user".to_string()),
        subreddit: Some("rust".to_string()),
        search_term: Some("hello \"world\"".to_string()),
        search_type: SearchType::Comments,
        num_returned: Some(100),
        score_filter: Some(">10".to_string()),
    }
}

/// Reads the query of a URL back into names and values, with the decoder of the
/// crate that encoded it.
fn read_back(url: &str) -> Vec<(String, String)> {
    let behind = match url.find('?') {
        Some(at) => &url[at + 1..],
        None => "",
    };
    let query = match behind.find('#') {
        Some(at) => &behind[..at],
        None => behind,
    };
    let mut pairs = Vec::new();
    for item in query.split('&') {
        let (name, value) = match item.find('=') {
            Some(at) => (&item[..at], &item[at + 1..]),
            None => (item, ""),
        };
        let name = percent_encoding::percent_decode_str(name).decode_utf8().unwrap().to_string();
        let value = percent_encoding::percent_decode_str(value).decode_utf8().unwrap().to_string();
        pairs.push((name, value));
    }
    pairs
}

/// The encoded form of a value, as the URL of a search for it holds it.
fn url_encode(value: &str) -> String {
    let mut options = SearchOptions::new();
    options.num_returned = None;
    options.search_term = Some(value.to_string());
    let url = build_url(&options, None);
    let front = "https://api.pushshift.io/reddit/comment/search?html_decode=true&q=";
    assert!(url.starts_with(front));
    url[front.len()..].to_string()
}

fn pair(name: &str, value: &str) -> (String, String) {
    (name.to_string(), value.to_string())
}

#[test]
fn default_criteria_are_comments_with_a_hundred_results() {
    let options = SearchOptions::new();
    assert_eq!(options.author, None);
    assert_eq!(options.subreddit, None);
    assert_eq!(options.search_term, None);
    assert_eq!(options.search_type, SearchType::Comments);
    assert_eq!(options.num_returned, Some(100));
    assert_eq!(options.score_filter, None);
}

#[test]
fn endpoint_of_posts_is_submission() {
    assert_eq!(SearchType::Posts.to_endpoint(), "submission");
}

#[test]
fn endpoint_of_comments_is_comment() {
    assert_eq!(SearchType::Comments.to_endpoint(), "comment");
}

#[test]
fn url_of_default_criteria() {
    let url = build_url(&SearchOptions::new(), None);
    assert_eq!(url, "https://api.pushshift.io/reddit/comment/search?html_decode=true&size=100");
}

#[test]
fn url_of_posts_uses_the_submission_endpoint() {
    let mut options = SearchOptions::new();
    options.search_type = SearchType::Posts;
    options.num_returned = None;
    let url = build_url(&options, None);
    assert_eq!(url, "https://api.pushshift.io/reddit/submission/search?html_decode=true");
}

#[test]
fn url_with_every_criterion_and_a_cursor() {
    let url = build_url(&full_criteria(), Some(1600000000));
    assert_eq!(
        url,
        "https://api.pushshift.io/reddit/comment/search?html_decode=true\
         &author=some%5Fuser&subreddit=rust&q=hello%20%22world%22&size=100&score=%3E10\
         &before=1600000000"
    );
}

#[test]
fn url_leaves_out_absent_criteria() {
    let mut options = SearchOptions::new();
    options.num_returned = None;
    options.search_term = Some("ferris".to_string());
    let url = build_url(&options, None);
    assert_eq!(url, "https://api.pushshift.io/reddit/comment/search?html_decode=true&q=ferris");
}

#[test]
fn url_without_cursor_has_no_before() {
    let url = build_url(&full_criteria(), None);
    assert!(!url.contains("before="));
}

#[test]
fn url_with_negative_cursor() {
    let mut options = SearchOptions::new();
    options.num_returned = None;
    let url = build_url(&options, Some(-5));
    assert_eq!(
        url,
        "https://api.pushshift.io/reddit/comment/search?html_decode=true&before=%2D5"
    );
    assert_eq!(read_back(&url), vec![pair("html_decode", "true"), pair("before", "-5")]);
}

#[test]
fn url_is_the_same_for_the_same_criteria() {
    let first = build_url(&full_criteria(), Some(7));
    let second = build_url(&full_criteria(), Some(7));
    assert_eq!(first, second);
}

#[test]
fn url_reads_back_as_the_criteria() {
    let url = build_url(&full_criteria(), Some(1600000000));
    assert_eq!(
        read_back(&url),
        vec![
            pair("html_decode", "true"),
            pair("author", "some_user"),
            pair("subreddit", "rust"),
            pair("q", "hello \"world\""),
            pair("size", "100"),
            pair("score", ">10"),
            pair("before", "1600000000"),
        ]
    );
}

#[test]
fn url_reads_back_values_with_separators_and_escapes() {
    let mut options = SearchOptions::new();
    options.author = Some("a&b=c#d?e".to_string());
    options.subreddit = Some("100%41 + `<>`".to_string());
    options.search_term = Some("caf\u{e9} \u{1f980}\n".to_string());
    options.score_filter = Some(">100,<900".to_string());
    options.num_returned = Some(u64::MAX);
    let url = build_url(&options, Some(i64::MIN));
    assert!(url.is_ascii());
    assert_eq!(
        read_back(&url),
        vec![
            pair("html_decode", "true"),
            pair("author", "a&b=c#d?e"),
            pair("subreddit", "100%41 + `<>`"),
            pair("q", "caf\u{e9} \u{1f980}\n"),
            pair("size", "18446744073709551615"),
            pair("score", ">100,<900"),
            pair("before", "-9223372036854775808"),
        ]
    );
}

#[test]
fn encoding_escapes_space_quote_angle_brackets_and_backtick() {
    assert_eq!(url_encode(" "), "%20");
    assert_eq!(url_encode("\""), "%22");
    assert_eq!(url_encode("<"), "%3C");
    assert_eq!(url_encode(">"), "%3E");
    assert_eq!(url_encode("`"), "%60");
}

#[test]
fn encoding_keeps_letters_and_digits() {
    assert_eq!(url_encode("Rust2024"), "Rust2024");
    assert_eq!(url_encode(""), "");
}

#[test]
fn encoding_escapes_each_byte_of_a_character_outside_ascii() {
    assert_eq!(url_encode("\u{e9}"), "%C3%A9");
    assert_eq!(url_encode("a b"), "a%20b");
    assert_eq!(url_encode("\u{7f}\u{0}"), "%7F%00");
}

#[test]
fn criteria_clone_is_equal_field_by_field() {
    let options = full_criteria();
    let copy = options.clone();
    assert_eq!(copy.author, options.author);
    assert_eq!(copy.subreddit, options.subreddit);
    assert_eq!(copy.search_term, options.search_term);
    assert_eq!(copy.search_type, options.search_type);
    assert_eq!(copy.num_returned, options.num_returned);
    assert_eq!(copy.score_filter, options.score_filter);
}
