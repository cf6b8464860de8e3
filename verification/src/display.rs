//! What is shown of an entry and of the controller: the texts and addresses that a
//! page displays, without the markup around them.

use vstd::prelude::*;
use vstd::string::{StrSliceExecFns, StringExecFns};
use crate::data::{extension, extension_of, text_of, Entry, PostData};
use crate::search::Search;

verus! {

/// The text of a moment given in seconds since the Unix epoch, in UTC, as year, month,
/// day, hour, minute and second; none where the calendar used does not reach it.
pub uninterp spec fn utc_text(seconds: int) -> Option<Seq<char>>;

/// Calls `chrono::DateTime::from_timestamp` with no nanoseconds and, where that yields a
/// moment, `chrono::DateTime::format` on it with the pattern `%Y-%m-%d %H:%M:%S`.
/// Trusted: what comes back, a text or none, depends on `seconds` alone; `utc_text` is
/// the name of it.
#[verifier::external_body]
fn format_utc(seconds: i64) -> (text: Option<String>)
    ensures
        text_of(text) == utc_text(seconds as int),
{
    match chrono::DateTime::from_timestamp(seconds, 0) {
        Some(moment) => Some(moment.format("%Y-%m-%d %H:%M:%S").to_string()),
        None => None,
    }
}

/// The text in front of an address or a label, followed by a name.
fn prefixed(front: &str, name: &str) -> (text: String)
    ensures
        text@ == front@ + name@,
{
    let mut text = front.to_string();
    text.append(name);
    text
}

impl Entry {
    /// The text shown for the creation time of the entry: its date and time in UTC.
    pub fn created_text(&self) -> (text: Option<String>)
        ensures
            text_of(text) == utc_text(self@.created()),
    {
        format_utc(self.get_created())
    }

    /// The address of the page of the entry's subreddit.
    pub fn subreddit_link(&self) -> (link: String)
        ensures
            link@ == "https://reddit.com/r/"@ + self@.subreddit(),
    {
        prefixed("https://reddit.com/r/", self.subreddit())
    }

    /// The text shown for the entry's subreddit.
    pub fn subreddit_label(&self) -> (label: String)
        ensures
            label@ == "/r/"@ + self@.subreddit(),
    {
        prefixed("/r/", self.subreddit())
    }

    /// The address of the page of the entry's author.
    pub fn author_link(&self) -> (link: String)
        ensures
            link@ == "https://reddit.com/u/"@ + self@.author(),
    {
        prefixed("https://reddit.com/u/", self.author())
    }

    /// The text shown for the entry's author.
    pub fn author_label(&self) -> (label: String)
        ensures
            label@ == "/u/"@ + self@.author(),
    {
        prefixed("/u/", self.author())
    }

    /// The address of the entry: the site, and the entry's path where it is known.
    pub fn permalink_link(&self) -> (link: String)
        ensures
            link@ == "https://reddit.com"@ + match self@.permalink() {
                Some(path) => path,
                None => Seq::empty(),
            },
    {
        match self.permalink() {
            Some(path) => prefixed("https://reddit.com", path.as_str()),
            None => {
                proof {
                    reveal_strlit("");
                }
                let link = prefixed("https://reddit.com", "");
                assert(link@ =~= "https://reddit.com"@);
                assert("https://reddit.com"@ + Seq::<char>::empty() =~= "https://reddit.com"@);
                link
            },
        }
    }
}

/// Whether a text begins with `http`.
pub open spec fn is_web_address(text: Seq<char>) -> bool {
    text.len() >= 4 && text[0] == 'h' && text[1] == 't' && text[2] == 't' && text[3] == 'p'
}

/// Whether an extension is that of a picture that can be shown: `.png` or `.jpg`.
pub open spec fn is_picture_extension(ext: Seq<char>) -> bool {
    ext == seq!['.', 'p', 'n', 'g'] || ext == seq!['.', 'j', 'p', 'g']
}

/// The address of the picture shown beside a post: its thumbnail, where that is a web
/// address; else its link, where that ends in `.png` or `.jpg`; else none.
pub open spec fn picture_of(thumbnail: Option<Seq<char>>, url: Seq<char>) -> Option<Seq<char>> {
    if thumbnail is Some && is_web_address(thumbnail->0) {
        thumbnail
    } else if is_picture_extension(extension_of(url)) {
        Some(url)
    } else {
        None
    }
}

fn begins_with_http(text: &str) -> (known: bool)
    ensures
        known == is_web_address(text@),
{
    let length = text.unicode_len();
    length >= 4 && text.get_char(0) == 'h' && text.get_char(1) == 't' && text.get_char(2) == 't'
        && text.get_char(3) == 'p'
}

fn shows_as_picture(ext: &str) -> (known: bool)
    ensures
        known == is_picture_extension(ext@),
{
    let length = ext.unicode_len();
    if length != 4 {
        return false;
    }
    let known = ext.get_char(0) == '.' && ((ext.get_char(1) == 'p' && ext.get_char(2) == 'n')
        || (ext.get_char(1) == 'j' && ext.get_char(2) == 'p')) && ext.get_char(3) == 'g';
    assert(known ==> (ext@ =~= seq!['.', 'p', 'n', 'g'] || ext@ =~= seq!['.', 'j', 'p', 'g']));
    known
}

impl PostData {
    /// The address of the picture to show beside the post, if there is one.
    pub fn thumbnail_source(&self) -> (source: Option<&str>)
        ensures
            match source {
                Some(address) => picture_of(self@.thumbnail, self@.url) == Some(address@),
                None => picture_of(self@.thumbnail, self@.url) is None,
            },
    {
        if let Some(thumbnail) = &self.thumbnail {
            if begins_with_http(thumbnail.as_str()) {
                return Some(thumbnail.as_str());
            }
        }
        if shows_as_picture(extension(self.url.as_str())) {
            Some(self.url.as_str())
        } else {
            None
        }
    }

    /// Whether the post shows its own text rather than its link: whether it has any.
    pub fn shows_selftext(&self) -> (shown: bool)
        ensures
            shown == (self@.selftext.len() > 0),
    {
        !self.selftext.as_str().is_empty()
    }
}

impl Search {
    /// The text of the search button: busy while a fresh search is under way.
    pub fn button_text(&self) -> (text: &'static str)
        ensures
            text@ == if self@.is_searching {
                "Searching..."@
            } else {
                "Search"@
            },
    {
        if self.is_searching() {
            "Searching..."
        } else {
            "Search"
        }
    }

    /// The text of the button that loads more: busy while a continuation is under way.
    pub fn more_text(&self) -> (text: &'static str)
        ensures
            text@ == if self@.is_loading_more {
                "Moreing..."@
            } else {
                "More"@
            },
    {
        if self.is_loading_more() {
            "Moreing..."
        } else {
            "More"
        }
    }

    /// The text of the error line: the last failure, or nothing.
    pub fn error_text(&self) -> (text: String)
        ensures
            text@ == match self@.last_error {
                Some(message) => message,
                None => Seq::empty(),
            },
    {
        match self.last_error() {
            Some(message) => message.clone(),
            None => String::new(),
        }
    }

    /// Whether to say that there are no results: no entry is held and the last answer
    /// was no failure.
    pub fn shows_no_results(&self) -> (shown: bool)
        ensures
            shown == (self@.results.len() == 0 && self@.last_error is None),
    {
        self.results().len() == 0 && self.last_error().is_none()
    }
}

} // verus!
