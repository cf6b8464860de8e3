//! Search criteria, and the request URL that they give.

use vstd::prelude::*;
use vstd::string::StringExecFns;
use vstd::string::StringSliceAdditionalSpecFns;
use vstd::utf8::encode_utf8;
use crate::data::{clone_text, text_of};
use crate::encode::{percent_encoded, url_encode};
use crate::text::{decimal, signed_text, unsigned_text};

verus! {

/// The two kinds of content that can be searched for.
#[derive(Clone, Copy, Debug, PartialEq, Eq, Structural)]
pub enum SearchType {
    Posts,
    Comments,
}

impl SearchType {
    /// The path segment of the service's endpoint for this kind of content.
    pub open spec fn endpoint(self) -> Seq<char> {
        match self {
            SearchType::Posts => "submission"@,
            SearchType::Comments => "comment"@,
        }
    }

    /// Returns the path segment of the service's endpoint for this kind of content.
    pub fn to_endpoint(&self) -> (segment: String)
        ensures
            segment@ == self.endpoint(),
    {
        match self {
            SearchType::Posts => "submission".to_string(),
            SearchType::Comments => "comment".to_string(),
        }
    }
}

/// Search criteria, as a mathematical value.
pub struct CriteriaView {
    pub author: Option<Seq<char>>,
    pub subreddit: Option<Seq<char>>,
    pub search_term: Option<Seq<char>>,
    pub search_type: SearchType,
    pub num_returned: Option<nat>,
    pub score_filter: Option<Seq<char>>,
}

impl CriteriaView {
    /// The criteria before any edit: comments, a hundred results, nothing else set.
    pub open spec fn initial() -> CriteriaView {
        CriteriaView {
            author: None,
            subreddit: None,
            search_term: None,
            search_type: SearchType::Comments,
            num_returned: Some(100),
            score_filter: None,
        }
    }
}

/// The criteria of a search. Every field but the kind of content may be absent.
#[derive(Debug, PartialEq, Eq)]
pub struct SearchOptions {
    pub author: Option<String>,
    pub subreddit: Option<String>,
    pub search_term: Option<String>,
    pub search_type: SearchType,
    pub num_returned: Option<u64>,
    pub score_filter: Option<String>,
}

impl View for SearchOptions {
    type V = CriteriaView;

    open spec fn view(&self) -> CriteriaView {
        CriteriaView {
            author: text_of(self.author),
            subreddit: text_of(self.subreddit),
            search_term: text_of(self.search_term),
            search_type: self.search_type,
            num_returned: match self.num_returned {
                Some(n) => Some(n as nat),
                None => None,
            },
            score_filter: text_of(self.score_filter),
        }
    }
}

impl Clone for SearchOptions {
    fn clone(&self) -> (copy: Self)
        ensures
            copy == *self,
    {
        SearchOptions {
            author: clone_text(&self.author),
            subreddit: clone_text(&self.subreddit),
            search_term: clone_text(&self.search_term),
            search_type: self.search_type,
            num_returned: self.num_returned,
            score_filter: clone_text(&self.score_filter),
        }
    }
}

impl SearchOptions {
    /// The criteria before any edit.
    pub fn new() -> (options: Self)
        ensures
            options@ == CriteriaView::initial(),
    {
        SearchOptions {
            author: None,
            subreddit: None,
            search_term: None,
            search_type: SearchType::Comments,
            num_returned: Some(100),
            score_filter: None,
        }
    }
}

/// One item of a query: its name, `=`, and its value percent-encoded.
pub open spec fn item(name: Seq<char>, value: Seq<char>) -> Seq<char> {
    name + seq!['='] + percent_encoded(encode_utf8(value))
}

/// One parameter of a query behind the first: `&` and the item.
pub open spec fn parameter(name: Seq<char>, value: Seq<char>) -> Seq<char> {
    seq!['&'] + item(name, value)
}

/// A parameter that is written only where its value is present.
pub open spec fn optional_parameter(name: Seq<char>, value: Option<Seq<char>>) -> Seq<char> {
    match value {
        Some(text) => parameter(name, text),
        None => Seq::empty(),
    }
}

/// The decimal text of an optional number.
pub open spec fn optional_decimal(value: Option<int>) -> Option<Seq<char>> {
    match value {
        Some(n) => Some(decimal(n)),
        None => None,
    }
}

/// The result limit of the criteria as an optional integer.
pub open spec fn limit_of(criteria: CriteriaView) -> Option<int> {
    match criteria.num_returned {
        Some(n) => Some(n as int),
        None => None,
    }
}

/// The address of the search endpoint for a kind of content.
pub open spec fn endpoint_url(search_type: SearchType) -> Seq<char> {
    "https://api.pushshift.io/reddit/"@ + search_type.endpoint() + "/search"@
}

/// The parameters behind the first: one for each criterion that is present, in the
/// order author, subreddit, q, size, score, and `before` for the cursor.
pub open spec fn parameters_of(criteria: CriteriaView, cursor: Option<int>) -> Seq<char> {
    optional_parameter("author"@, criteria.author) + optional_parameter(
        "subreddit"@,
        criteria.subreddit,
    ) + optional_parameter("q"@, criteria.search_term) + optional_parameter(
        "size"@,
        optional_decimal(limit_of(criteria)),
    ) + optional_parameter("score"@, criteria.score_filter) + optional_parameter(
        "before"@,
        optional_decimal(cursor),
    )
}

/// The URL of the request for the given criteria and cursor: the endpoint of the kind
/// of content, `?`, `html_decode=true`, and the parameters of the criteria and the
/// cursor.
pub open spec fn url_of(criteria: CriteriaView, cursor: Option<int>) -> Seq<char> {
    endpoint_url(criteria.search_type) + seq!['?'] + "html_decode=true"@ + parameters_of(
        criteria,
        cursor,
    )
}

fn push_parameter(url: &mut String, name: &str, value: &str)
    ensures
        final(url)@ == old(url)@ + parameter(name@, value@),
{
    proof {
        reveal_strlit("&");
        reveal_strlit("=");
    }
    let encoded = url_encode(value);
    url.append("&");
    url.append(name);
    url.append("=");
    url.append(encoded.as_str());
    assert(url@ =~= old(url)@ + parameter(name@, value@));
}

fn push_optional(url: &mut String, name: &str, value: &Option<String>)
    ensures
        final(url)@ == old(url)@ + optional_parameter(name@, text_of(*value)),
{
    match value {
        Some(text) => push_parameter(url, name, text.as_str()),
        None => {
            assert(url@ =~= old(url)@ + optional_parameter(name@, text_of(*value)));
        },
    }
}

/// Concatenation of sequences is associative.
proof fn lemma_concat_associative(a: Seq<char>, b: Seq<char>, c: Seq<char>)
    ensures
        (a + b) + c == a + (b + c),
{
    assert((a + b) + c =~= a + (b + c));
}

fn start_url(search_type: SearchType) -> (url: String)
    ensures
        url@ == endpoint_url(search_type) + seq!['?'] + "html_decode=true"@,
{
    proof {
        reveal_strlit("?");
    }
    let mut url = "https://api.pushshift.io/reddit/".to_string();
    let endpoint = search_type.to_endpoint();
    url.append(endpoint.as_str());
    url.append("/search");
    url.append("?");
    url.append("html_decode=true");
    url
}

fn push_parameters(url: &mut String, criteria: &SearchOptions, cursor: Option<i64>)
    ensures
        final(url)@ == old(url)@ + parameters_of(
            criteria@,
            match cursor {
                Some(c) => Some(c as int),
                None => None,
            },
        ),
{
    let ghost base = url@;
    let ghost view = criteria@;
    let ghost cursor_view = match cursor {
        Some(c) => Some(c as int),
        None => None,
    };
    push_optional(url, "author", &criteria.author);
    let ghost written = optional_parameter("author"@, view.author);
    push_optional(url, "subreddit", &criteria.subreddit);
    proof {
        let next = optional_parameter("subreddit"@, view.subreddit);
        lemma_concat_associative(base, written, next);
        written = written + next;
    }
    push_optional(url, "q", &criteria.search_term);
    proof {
        let next = optional_parameter("q"@, view.search_term);
        lemma_concat_associative(base, written, next);
        written = written + next;
    }
    let size = match criteria.num_returned {
        Some(n) => Some(unsigned_text(n)),
        None => None,
    };
    push_optional(url, "size", &size);
    proof {
        let next = optional_parameter("size"@, optional_decimal(limit_of(view)));
        lemma_concat_associative(base, written, next);
        written = written + next;
    }
    push_optional(url, "score", &criteria.score_filter);
    proof {
        let next = optional_parameter("score"@, view.score_filter);
        lemma_concat_associative(base, written, next);
        written = written + next;
    }
    let before = match cursor {
        Some(c) => Some(signed_text(c)),
        None => None,
    };
    push_optional(url, "before", &before);
    proof {
        let next = optional_parameter("before"@, optional_decimal(cursor_view));
        lemma_concat_associative(base, written, next);
        written = written + next;
    }
}

/// Builds the URL of the request for the given criteria; with a cursor, the request
/// asks for entries created strictly before it.
pub fn build_url(criteria: &SearchOptions, cursor: Option<i64>) -> (url: String)
    ensures
        url@ == url_of(
            criteria@,
            match cursor {
                Some(c) => Some(c as int),
                None => None,
            },
        ),
{
    let mut url = start_url(criteria.search_type);
    push_parameters(&mut url, criteria, cursor);
    url
}

} // verus!
