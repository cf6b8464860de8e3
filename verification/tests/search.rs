use reddit_search::data::{CommentData, Entry, PostData};
use reddit_search::query::{SearchOptions, SearchType};
use reddit_search::search::{
    classify_response, response_message, Failure, Msg, Search, SearchError, Ticket, Update,
};

fn comment(id: &str, created_utc: i64) -> Entry {
    Entry::Comment(CommentData {
        author: "ferris".to_string(),
        body: "a comment".to_string(),
        created_utc,
        id: id.to_string(),
        score: 3,
        subreddit: "rust".to_string(),
        permalink: Some(format!("/r/rust/comments/{}", id)),
    })
}

fn post(id: &str, created_utc: i64) -> Entry {
    Entry::Post(PostData {
        author: "ferris".to_string(),
        title: "a post".to_string(),
        url: "https://example.com/crab.png".to_string(),
        selftext: String::new(),
        created_utc,
        id: id.to_string(),
        score: 9,
        subreddit: "rust".to_string(),
        permalink: None,
        thumbnail: None,
    })
}

fn fresh(number: u64) -> Ticket {
    Ticket { number, is_continuation: false }
}

fn more(number: u64) -> Ticket {
    Ticket { number, is_continuation: true }
}

/// A controller that has searched the subreddit `rust` and received two comments.
fn after_two_comments() -> Search {
    let mut search = Search::create();
    search.set_subreddit("rust".to_string());
    let request = search.search();
    let outcome = search.on_success(request.ticket, vec![comment("a", 200), comment("b", 100)]);
    assert_eq!(outcome, Ok(()));
    search
}

#[test]
fn new_controller_is_empty_and_idle() {
    let search = Search::create();
    assert_eq!(search.draft(), &SearchOptions::new());
    assert_eq!(search.committed(), &SearchOptions::new());
    assert!(search.results().is_empty());
    assert!(!search.is_searching());
    assert!(!search.is_loading_more());
    assert_eq!(search.last_error(), &None);
    assert!(!search.can_load_more());
    assert_eq!(search.cursor(), None);
    assert!(search.can_issue());
}

#[test]
fn edits_show_in_the_draft_and_not_in_the_committed_criteria() {
    let mut search = Search::create();
    search.set_author("first".to_string());
    search.set_author("ferris".to_string());
    search.set_subreddit("rust".to_string());
    search.set_search_term("lifetimes".to_string());
    search.set_content_type(SearchType::Posts);
    search.set_score_filter(">10".to_string());
    assert_eq!(search.set_result_limit(25), Ok(()));
    let draft = search.draft();
    assert_eq!(draft.author, Some("ferris".to_string()));
    assert_eq!(draft.subreddit, Some("rust".to_string()));
    assert_eq!(draft.search_term, Some("lifetimes".to_string()));
    assert_eq!(draft.search_type, SearchType::Posts);
    assert_eq!(draft.score_filter, Some(">10".to_string()));
    assert_eq!(draft.num_returned, Some(25));
    assert_eq!(search.committed(), &SearchOptions::new());
    assert!(search.results().is_empty());
    assert!(!search.is_searching());
    assert_eq!(search.last_error(), &None);
}

#[test]
fn search_commits_the_draft() {
    let mut search = Search::create();
    search.set_author("ferris".to_string());
    let request = search.search();
    assert_eq!(search.committed().author, Some("ferris".to_string()));
    assert_eq!(search.committed(), search.draft());
    assert!(search.is_searching());
    assert!(!search.is_loading_more());
    assert_eq!(request.ticket, fresh(1));
    assert_eq!(
        request.url,
        "https://api.pushshift.io/reddit/comment/search?html_decode=true&author=ferris&size=100"
    );
    search.set_author("someone".to_string());
    assert_eq!(search.committed().author, Some("ferris".to_string()));
}

#[test]
fn search_clears_the_last_error() {
    let mut search = Search::create();
    let request = search.search();
    assert_eq!(search.on_failure(request.ticket, "Error: 500".to_string()), Ok(()));
    assert_eq!(search.last_error(), &Some("Error: 500".to_string()));
    search.search();
    assert_eq!(search.last_error(), &None);
}

#[test]
fn search_in_a_subreddit_resolves_with_two_comments() {
    let mut search = Search::create();
    search.set_subreddit("rust".to_string());
    let request = search.search();
    assert!(request.url.ends_with("?html_decode=true&subreddit=rust&size=100"));
    let outcome = search.on_success(request.ticket, vec![comment("a", 200), comment("b", 100)]);
    assert_eq!(outcome, Ok(()));
    assert_eq!(search.results().len(), 2);
    assert!(!search.is_searching());
    assert!(search.can_load_more());
}

#[test]
fn load_more_resolves_with_no_entries() {
    let mut search = after_two_comments();
    let request = search.load_more().unwrap();
    assert!(search.is_loading_more());
    assert_eq!(request.ticket, more(2));
    assert!(request.url.ends_with("?html_decode=true&subreddit=rust&size=100&before=100"));
    assert_eq!(search.on_success(request.ticket, Vec::new()), Ok(()));
    assert_eq!(search.results().len(), 2);
    assert_eq!(search.results(), &vec![comment("a", 200), comment("b", 100)]);
    assert!(!search.can_load_more());
    assert!(!search.is_loading_more());
}

#[test]
fn search_resolves_with_status_500() {
    let mut search = Search::create();
    let request = search.search();
    let outcome = search.on_response(request.ticket, 500, Err("no body".to_string()));
    assert_eq!(outcome, Err(SearchError::RequestFailed));
    assert_eq!(search.results().len(), 0);
    assert_eq!(search.last_error(), &Some("Error: 500".to_string()));
    assert!(!search.can_load_more());
    assert!(!search.is_searching());
}

#[test]
fn negative_result_limit_is_refused() {
    let mut search = Search::create();
    assert_eq!(search.set_result_limit(-5), Err(SearchError::InvalidInput));
    assert_eq!(search.draft().num_returned, Some(100));
    assert_eq!(search.set_result_limit(0), Err(SearchError::InvalidInput));
    assert_eq!(search.draft().num_returned, Some(100));
    assert_eq!(search.set_result_limit(i64::MIN), Err(SearchError::InvalidInput));
    assert_eq!(search.draft().num_returned, Some(100));
}

#[test]
fn positive_result_limit_is_taken() {
    let mut search = Search::create();
    assert_eq!(search.set_result_limit(1), Ok(()));
    assert_eq!(search.draft().num_returned, Some(1));
    assert_eq!(search.set_result_limit(i64::MAX), Ok(()));
    assert_eq!(search.draft().num_returned, Some(9223372036854775807));
}

#[test]
fn result_limit_from_text() {
    let mut search = Search::create();
    assert_eq!(search.set_result_limit_text("250"), Ok(()));
    assert_eq!(search.draft().num_returned, Some(250));
    assert_eq!(search.set_result_limit_text("abc"), Err(SearchError::InvalidInput));
    assert_eq!(search.set_result_limit_text(""), Err(SearchError::InvalidInput));
    assert_eq!(search.set_result_limit_text("-5"), Err(SearchError::InvalidInput));
    assert_eq!(search.set_result_limit_text("0"), Err(SearchError::InvalidInput));
    assert_eq!(search.set_result_limit_text("2.5"), Err(SearchError::InvalidInput));
    assert_eq!(
        search.set_result_limit_text("99999999999999999999"),
        Err(SearchError::InvalidInput)
    );
    assert_eq!(search.draft().num_returned, Some(250));
}

#[test]
fn load_more_appends_in_order() {
    let mut search = after_two_comments();
    let request = search.load_more().unwrap();
    let outcome = search.on_success(request.ticket, vec![post("c", 90), comment("d", 80)]);
    assert_eq!(outcome, Ok(()));
    assert_eq!(
        search.results(),
        &vec![comment("a", 200), comment("b", 100), post("c", 90), comment("d", 80)]
    );
    assert!(search.can_load_more());
    assert_eq!(search.cursor(), Some(80));
}

#[test]
fn load_more_does_nothing_where_no_more_can_be_loaded() {
    let mut search = Search::create();
    assert!(search.load_more().is_none());
    assert!(!search.is_loading_more());
    assert!(!search.awaits(more(1)));
    let request = search.search();
    assert_eq!(request.ticket, fresh(1));
    assert!(search.load_more().is_none());
    assert!(!search.is_loading_more());
    assert!(search.is_searching());
    assert!(search.awaits(fresh(1)));
}

#[test]
fn load_more_uses_the_committed_criteria() {
    let mut search = after_two_comments();
    search.set_subreddit("golang".to_string());
    let request = search.load_more().unwrap();
    assert!(request.url.ends_with("?html_decode=true&subreddit=rust&size=100&before=100"));
}

#[test]
fn searching_twice_applies_the_second_answer_only() {
    let mut search = Search::create();
    let first = search.search();
    let second = search.search();
    assert_eq!(first.url, second.url);
    assert_eq!(first.ticket, fresh(1));
    assert_eq!(second.ticket, fresh(2));
    let entries = vec![comment("a", 200), comment("b", 100)];
    assert_eq!(
        search.on_success(first.ticket, entries.clone()),
        Err(SearchError::StaleResponse)
    );
    assert!(search.results().is_empty());
    assert!(search.is_searching());
    assert_eq!(search.on_success(second.ticket, entries.clone()), Ok(()));
    assert_eq!(search.results(), &entries);
    let mut once = Search::create();
    let only = once.search();
    assert_eq!(once.on_success(only.ticket, entries.clone()), Ok(()));
    assert_eq!(once.results(), search.results());
}

#[test]
fn searching_twice_with_answers_out_of_order() {
    let mut search = Search::create();
    let first = search.search();
    let second = search.search();
    let entries = vec![comment("a", 200)];
    assert_eq!(search.on_success(second.ticket, entries.clone()), Ok(()));
    assert_eq!(
        search.on_success(first.ticket, vec![comment("old", 5)]),
        Err(SearchError::StaleResponse)
    );
    assert_eq!(search.results(), &entries);
}

#[test]
fn an_answer_is_applied_once() {
    let mut search = after_two_comments();
    let request = search.load_more().unwrap();
    assert_eq!(search.on_success(request.ticket, vec![comment("c", 90)]), Ok(()));
    assert_eq!(
        search.on_success(request.ticket, vec![comment("c", 90)]),
        Err(SearchError::StaleResponse)
    );
    assert_eq!(search.results().len(), 3);
}

#[test]
fn stale_failure_is_discarded() {
    let mut search = after_two_comments();
    assert_eq!(
        search.on_failure(fresh(1), "late".to_string()),
        Err(SearchError::StaleResponse)
    );
    assert_eq!(search.on_failure(more(7), "never".to_string()), Err(SearchError::StaleResponse));
    assert_eq!(search.last_error(), &None);
    assert!(search.can_load_more());
    assert_eq!(search.results().len(), 2);
}

#[test]
fn failed_load_more_keeps_the_results() {
    let mut search = after_two_comments();
    let request = search.load_more().unwrap();
    assert_eq!(search.on_failure(request.ticket, "Error: 503".to_string()), Ok(()));
    assert_eq!(search.results(), &vec![comment("a", 200), comment("b", 100)]);
    assert_eq!(search.last_error(), &Some("Error: 503".to_string()));
    assert!(!search.can_load_more());
    assert!(!search.is_loading_more());
    assert!(!search.is_searching());
}

#[test]
fn fresh_results_replace_the_old_and_end_their_continuation() {
    let mut search = after_two_comments();
    let continuation = search.load_more().unwrap();
    search.set_subreddit("golang".to_string());
    let again = search.search();
    assert_eq!(search.on_success(again.ticket, vec![post("x", 50)]), Ok(()));
    assert_eq!(search.results(), &vec![post("x", 50)]);
    assert!(!search.is_loading_more());
    assert_eq!(
        search.on_success(continuation.ticket, vec![comment("c", 90)]),
        Err(SearchError::StaleResponse)
    );
    assert_eq!(search.results(), &vec![post("x", 50)]);
}

#[test]
fn continuation_that_arrives_before_a_new_search_is_appended() {
    let mut search = after_two_comments();
    let continuation = search.load_more().unwrap();
    let again = search.search();
    assert_eq!(search.on_success(continuation.ticket, vec![comment("c", 90)]), Ok(()));
    assert_eq!(search.results().len(), 3);
    assert!(search.awaits(again.ticket));
    assert_eq!(search.on_success(again.ticket, vec![post("x", 50)]), Ok(()));
    assert_eq!(search.results(), &vec![post("x", 50)]);
}

#[test]
fn success_clears_the_last_error() {
    let mut search = Search::create();
    let request = search.search();
    assert_eq!(search.on_failure(request.ticket, "Error: 500".to_string()), Ok(()));
    let request = search.search();
    assert_eq!(search.on_success(request.ticket, vec![comment("a", 1)]), Ok(()));
    assert_eq!(search.last_error(), &None);
}

#[test]
fn response_with_success_and_entries() {
    let mut search = Search::create();
    let request = search.search();
    let outcome = search.on_response(request.ticket, 200, Ok(vec![comment("a", 1)]));
    assert_eq!(outcome, Ok(()));
    assert_eq!(search.results().len(), 1);
    assert!(search.can_load_more());
}

#[test]
fn response_with_success_and_a_body_that_was_not_decoded() {
    let mut search = after_two_comments();
    let request = search.search();
    let outcome =
        search.on_response(request.ticket, 200, Err("missing field `author`".to_string()));
    assert_eq!(outcome, Err(SearchError::MalformedResponse));
    assert_eq!(search.last_error(), &Some("missing field `author`".to_string()));
    assert_eq!(search.results().len(), 2);
    assert!(!search.can_load_more());
    assert!(!search.is_searching());
}

#[test]
fn response_that_is_not_awaited() {
    let mut search = after_two_comments();
    let outcome = search.on_response(fresh(1), 200, Ok(vec![comment("z", 1)]));
    assert_eq!(outcome, Err(SearchError::StaleResponse));
    assert_eq!(search.results().len(), 2);
    let outcome = search.on_response(fresh(9), 500, Err("x".to_string()));
    assert_eq!(outcome, Err(SearchError::StaleResponse));
    assert_eq!(search.last_error(), &None);
}

#[test]
fn classify_sorts_by_status_then_body() {
    assert_eq!(classify_response(200, Ok(vec![comment("a", 1)])), Ok(vec![comment("a", 1)]));
    assert_eq!(classify_response(299, Ok(Vec::new())), Ok(Vec::new()));
    assert_eq!(
        classify_response(204, Err("eof".to_string())),
        Err(Failure { kind: SearchError::MalformedResponse, message: "eof".to_string() })
    );
    assert_eq!(
        classify_response(404, Ok(vec![comment("a", 1)])),
        Err(Failure { kind: SearchError::RequestFailed, message: "Error: 404".to_string() })
    );
    assert_eq!(
        classify_response(199, Err("eof".to_string())),
        Err(Failure { kind: SearchError::RequestFailed, message: "Error: 199".to_string() })
    );
    assert_eq!(
        classify_response(300, Ok(Vec::new())),
        Err(Failure { kind: SearchError::RequestFailed, message: "Error: 300".to_string() })
    );
    assert_eq!(
        classify_response(0, Ok(Vec::new())),
        Err(Failure { kind: SearchError::RequestFailed, message: "Error: 0".to_string() })
    );
    assert_eq!(
        classify_response(u16::MAX, Ok(Vec::new())),
        Err(Failure { kind: SearchError::RequestFailed, message: "Error: 65535".to_string() })
    );
}

#[test]
fn response_message_carries_the_ticket() {
    assert_eq!(
        response_message(more(3), 200, Ok(vec![post("p", 4)])),
        Msg::SearchSuccess(more(3), vec![post("p", 4)])
    );
    assert_eq!(
        response_message(fresh(4), 500, Ok(Vec::new())),
        Msg::SearchFail(fresh(4), "Error: 500".to_string())
    );
    assert_eq!(
        response_message(fresh(4), 200, Err("bad".to_string())),
        Msg::SearchFail(fresh(4), "bad".to_string())
    );
}

#[test]
fn update_handles_edits_without_rendering() {
    let mut search = Search::create();
    let quiet = Update { render: false, request: None };
    assert_eq!(search.update(Msg::AuthorInput("ferris".to_string())), quiet);
    assert_eq!(search.update(Msg::SubredditInput("rust".to_string())), quiet);
    assert_eq!(search.update(Msg::SearchInput("crab".to_string())), quiet);
    assert_eq!(search.update(Msg::SearchTypeInput(SearchType::Posts)), quiet);
    assert_eq!(search.update(Msg::ScoreFilterInput("<5".to_string())), quiet);
    assert_eq!(search.update(Msg::NumReturnedInput("50".to_string())), quiet);
    assert_eq!(search.update(Msg::NumReturnedInput("fifty".to_string())), quiet);
    assert_eq!(
        search.draft(),
        &SearchOptions {
            author: Some("ferris".to_string()),
            subreddit: Some("rust".to_string()),
            search_term: Some("crab".to_string()),
            search_type: SearchType::Posts,
            num_returned: Some(50),
            score_filter: Some("<5".to_string()),
        }
    );
    assert_eq!(search.committed(), &SearchOptions::new());
}

#[test]
fn update_runs_a_search_and_its_continuation() {
    let mut search = Search::create();
    let quiet = Update { render: false, request: None };
    let shown = Update { render: true, request: None };
    assert_eq!(search.update(Msg::DoMore), quiet);
    let step = search.update(Msg::DoSearch);
    assert!(step.render);
    let request = step.request.unwrap();
    assert_eq!(request.ticket, fresh(1));
    assert_eq!(
        request.url,
        "https://api.pushshift.io/reddit/comment/search?html_decode=true&size=100"
    );
    assert!(search.is_searching());
    assert_eq!(search.update(Msg::SearchSuccess(fresh(1), vec![comment("a", 10)])), shown);
    assert_eq!(search.update(Msg::SearchSuccess(fresh(1), vec![comment("a", 10)])), quiet);
    assert_eq!(search.results().len(), 1);
    let step = search.update(Msg::DoMore);
    assert!(step.render);
    let request = step.request.unwrap();
    assert_eq!(request.ticket, more(2));
    assert!(request.url.ends_with("&size=100&before=10"));
    assert_eq!(search.update(Msg::SearchFail(more(2), "Error: 429".to_string())), shown);
    assert_eq!(search.update(Msg::SearchFail(more(2), "Error: 429".to_string())), quiet);
    assert_eq!(search.last_error(), &Some("Error: 429".to_string()));
    assert_eq!(search.results().len(), 1);
    assert_eq!(search.update(Msg::DoMore), quiet);
}

#[test]
fn tickets_count_every_request() {
    let mut search = after_two_comments();
    let second = search.load_more().unwrap();
    let third = search.search();
    let fourth = search.search();
    assert_eq!(second.ticket, more(2));
    assert_eq!(third.ticket, fresh(3));
    assert_eq!(fourth.ticket, fresh(4));
    assert!(search.awaits(fourth.ticket));
    assert!(search.awaits(second.ticket));
    assert!(!search.awaits(third.ticket));
    assert!(!search.awaits(more(4)));
    assert!(!search.awaits(fresh(2)));
}
