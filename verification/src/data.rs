//! The entries that a search returns: posts and comments.

use vstd::prelude::*;
use vstd::string::StrSliceExecFns;

verus! {

/// The characters of an optional text.
pub open spec fn text_of(value: Option<String>) -> Option<Seq<char>> {
    match value {
        Some(text) => Some(text@),
        None => None,
    }
}

/// A comment, as a mathematical value.
pub struct CommentView {
    pub author: Seq<char>,
    pub body: Seq<char>,
    pub created_utc: int,
    pub id: Seq<char>,
    pub score: int,
    pub subreddit: Seq<char>,
    pub permalink: Option<Seq<char>>,
}

/// A post, as a mathematical value.
pub struct PostView {
    pub author: Seq<char>,
    pub title: Seq<char>,
    pub url: Seq<char>,
    pub selftext: Seq<char>,
    pub created_utc: int,
    pub id: Seq<char>,
    pub score: int,
    pub subreddit: Seq<char>,
    pub permalink: Option<Seq<char>>,
    pub thumbnail: Option<Seq<char>>,
}

/// An entry, as a mathematical value.
pub enum EntryView {
    Post(PostView),
    Comment(CommentView),
}

impl EntryView {
    /// The creation time of the entry, in seconds since the Unix epoch.
    pub open spec fn created(self) -> int {
        match self {
            EntryView::Post(post) => post.created_utc,
            EntryView::Comment(comment) => comment.created_utc,
        }
    }

    /// The author of the entry.
    pub open spec fn author(self) -> Seq<char> {
        match self {
            EntryView::Post(post) => post.author,
            EntryView::Comment(comment) => comment.author,
        }
    }

    /// The subreddit of the entry.
    pub open spec fn subreddit(self) -> Seq<char> {
        match self {
            EntryView::Post(post) => post.subreddit,
            EntryView::Comment(comment) => comment.subreddit,
        }
    }

    /// The path of the entry on the site, if it is known.
    pub open spec fn permalink(self) -> Option<Seq<char>> {
        match self {
            EntryView::Post(post) => post.permalink,
            EntryView::Comment(comment) => comment.permalink,
        }
    }
}

/// One comment of a search result.
#[derive(Debug, PartialEq, Eq)]
pub struct CommentData {
    pub author: String,
    pub body: String,
    pub created_utc: i64,
    pub id: String,
    pub score: i64,
    pub subreddit: String,
    pub permalink: Option<String>,
}

impl View for CommentData {
    type V = CommentView;

    open spec fn view(&self) -> CommentView {
        CommentView {
            author: self.author@,
            body: self.body@,
            created_utc: self.created_utc as int,
            id: self.id@,
            score: self.score as int,
            subreddit: self.subreddit@,
            permalink: text_of(self.permalink),
        }
    }
}

impl Clone for CommentData {
    fn clone(&self) -> (copy: Self)
        ensures
            copy == *self,
    {
        CommentData {
            author: self.author.clone(),
            body: self.body.clone(),
            created_utc: self.created_utc,
            id: self.id.clone(),
            score: self.score,
            subreddit: self.subreddit.clone(),
            permalink: clone_text(&self.permalink),
        }
    }
}

impl CommentData {
    /// Returns the creation time of the comment as it was received.
    pub fn get_created(&self) -> (created: i64)
        ensures
            created == self@.created_utc,
    {
        self.created_utc
    }
}

/// One post of a search result.
#[derive(Debug, PartialEq, Eq)]
pub struct PostData {
    pub author: String,
    pub title: String,
    pub url: String,
    pub selftext: String,
    pub created_utc: i64,
    pub id: String,
    pub score: i64,
    pub subreddit: String,
    pub permalink: Option<String>,
    pub thumbnail: Option<String>,
}

impl View for PostData {
    type V = PostView;

    open spec fn view(&self) -> PostView {
        PostView {
            author: self.author@,
            title: self.title@,
            url: self.url@,
            selftext: self.selftext@,
            created_utc: self.created_utc as int,
            id: self.id@,
            score: self.score as int,
            subreddit: self.subreddit@,
            permalink: text_of(self.permalink),
            thumbnail: text_of(self.thumbnail),
        }
    }
}

impl Clone for PostData {
    fn clone(&self) -> (copy: Self)
        ensures
            copy == *self,
    {
        PostData {
            author: self.author.clone(),
            title: self.title.clone(),
            url: self.url.clone(),
            selftext: self.selftext.clone(),
            created_utc: self.created_utc,
            id: self.id.clone(),
            score: self.score,
            subreddit: self.subreddit.clone(),
            permalink: clone_text(&self.permalink),
            thumbnail: clone_text(&self.thumbnail),
        }
    }
}

impl PostData {
    /// Returns the creation time of the post as it was received.
    pub fn get_created(&self) -> (created: i64)
        ensures
            created == self@.created_utc,
    {
        self.created_utc
    }
}

/// One entry of a search result: a post or a comment.
#[derive(Debug, PartialEq, Eq)]
pub enum Entry {
    Post(PostData),
    Comment(CommentData),
}

impl View for Entry {
    type V = EntryView;

    open spec fn view(&self) -> EntryView {
        match self {
            Entry::Post(post) => EntryView::Post(post@),
            Entry::Comment(comment) => EntryView::Comment(comment@),
        }
    }
}

impl Clone for Entry {
    fn clone(&self) -> (copy: Self)
        ensures
            copy == *self,
    {
        match self {
            Entry::Post(post) => Entry::Post(post.clone()),
            Entry::Comment(comment) => Entry::Comment(comment.clone()),
        }
    }
}

impl Entry {
    /// Returns the creation time of the entry as it was received, whichever kind it is.
    pub fn get_created(&self) -> (created: i64)
        ensures
            created == self@.created(),
    {
        match self {
            Entry::Post(post) => post.get_created(),
            Entry::Comment(comment) => comment.get_created(),
        }
    }

    /// The author of the entry.
    pub fn author(&self) -> (author: &str)
        ensures
            author@ == self@.author(),
    {
        match self {
            Entry::Post(post) => post.author.as_str(),
            Entry::Comment(comment) => comment.author.as_str(),
        }
    }

    /// The subreddit of the entry.
    pub fn subreddit(&self) -> (subreddit: &str)
        ensures
            subreddit@ == self@.subreddit(),
    {
        match self {
            Entry::Post(post) => post.subreddit.as_str(),
            Entry::Comment(comment) => comment.subreddit.as_str(),
        }
    }

    /// The path of the entry on the site, if it is known.
    pub fn permalink(&self) -> (permalink: &Option<String>)
        ensures
            text_of(*permalink) == self@.permalink(),
    {
        match self {
            Entry::Post(post) => &post.permalink,
            Entry::Comment(comment) => &comment.permalink,
        }
    }
}

/// The entries of a list, as mathematical values, in the list's order.
pub open spec fn entry_views(entries: Seq<Entry>) -> Seq<EntryView> {
    entries.map_values(|entry: Entry| entry@)
}

/// The body of a response to a search for comments.
#[derive(Debug, PartialEq, Eq)]
pub struct CommentsData {
    pub data: Vec<CommentData>,
}

impl Default for CommentsData {
    fn default() -> (empty: Self)
        ensures
            empty.data@.len() == 0,
    {
        CommentsData { data: Vec::new() }
    }
}

impl CommentsData {
    /// Turns the comments of a response into entries, in the order received.
    pub fn into_entries(self) -> (entries: Vec<Entry>)
        ensures
            entries@.len() == self.data@.len(),
            forall|i: int|
                0 <= i < entries@.len() ==> #[trigger] entries@[i] == Entry::Comment(self.data@[i]),
    {
        let mut entries: Vec<Entry> = Vec::new();
        for comment in it: self.data
            invariant
                it.seq() == self.data@,
                entries@.len() == it.index(),
                forall|i: int|
                    0 <= i < entries@.len() ==> #[trigger] entries@[i] == Entry::Comment(
                        self.data@[i],
                    ),
        {
            entries.push(Entry::Comment(comment));
        }
        entries
    }
}

/// The body of a response to a search for posts.
#[derive(Debug, PartialEq, Eq)]
pub struct PostsData {
    pub data: Vec<PostData>,
}

impl Default for PostsData {
    fn default() -> (empty: Self)
        ensures
            empty.data@.len() == 0,
    {
        PostsData { data: Vec::new() }
    }
}

impl PostsData {
    /// Turns the posts of a response into entries, in the order received.
    pub fn into_entries(self) -> (entries: Vec<Entry>)
        ensures
            entries@.len() == self.data@.len(),
            forall|i: int|
                0 <= i < entries@.len() ==> #[trigger] entries@[i] == Entry::Post(self.data@[i]),
    {
        let mut entries: Vec<Entry> = Vec::new();
        for post in it: self.data
            invariant
                it.seq() == self.data@,
                entries@.len() == it.index(),
                forall|i: int|
                    0 <= i < entries@.len() ==> #[trigger] entries@[i] == Entry::Post(
                        self.data@[i],
                    ),
        {
            entries.push(Entry::Post(post));
        }
        entries
    }
}

pub(crate) fn clone_text(value: &Option<String>) -> (copy: Option<String>)
    ensures
        copy == *value,
{
    match value {
        Some(text) => Some(text.clone()),
        None => None,
    }
}


/// Whether a character is an ASCII letter or digit.
pub open spec fn is_alphanumeric(c: char) -> bool {
    ('0' <= c <= '9') || ('A' <= c <= 'Z') || ('a' <= c <= 'z')
}

/// The position of the last `.` in a name, or -1 where it has none.
pub open spec fn last_dot(name: Seq<char>) -> int
    decreases name.len(),
{
    if name.len() == 0 {
        -1
    } else if name.last() == '.' {
        name.len() - 1
    } else {
        last_dot(name.drop_last())
    }
}

/// Whether every character of `name` behind position `from` is an ASCII letter or digit.
pub open spec fn alphanumeric_behind(name: Seq<char>, from: int) -> bool {
    forall|i: int| from < i < name.len() ==> is_alphanumeric(#[trigger] name[i])
}

/// The extension of a file name: what stands from its last `.` on, the dot included,
/// if only ASCII letters and digits follow that dot; empty otherwise.
pub open spec fn extension_of(name: Seq<char>) -> Seq<char> {
    let dot = last_dot(name);
    if dot >= 0 && alphanumeric_behind(name, dot) {
        name.skip(dot)
    } else {
        Seq::empty()
    }
}

fn is_ascii_alphanumeric(c: char) -> (known: bool)
    ensures
        known == is_alphanumeric(c),
{
    ('0' <= c && c <= '9') || ('A' <= c && c <= 'Z') || ('a' <= c && c <= 'z')
}

/// Returns the extension of a file name, with its dot, or the empty string.
pub fn extension(filename: &str) -> (ext: &str)
    ensures
        ext@ == extension_of(filename@),
{
    let length = filename.unicode_len();
    let mut dot: Option<usize> = None;
    let mut clean = true;
    let mut index: usize = 0;
    for c in it: filename.chars()
        invariant
            length == filename@.len(),
            it.seq() == filename@,
            index == it.index(),
            match dot {
                Some(d) => d < index && d == last_dot(filename@.take(index as int)),
                None => last_dot(filename@.take(index as int)) == -1,
            },
            dot is Some ==> clean == alphanumeric_behind(
                filename@.take(index as int),
                dot->0 as int,
            ),
    {
        let ghost before = filename@.take(index as int);
        let ghost after = filename@.take(index + 1);
        assert(after.drop_last() =~= before);
        assert(after[index as int] == c);
        assert(forall|i: int| 0 <= i < index ==> after[i] == before[i]);
        if c == '.' {
            dot = Some(index);
            clean = true;
        } else if !is_ascii_alphanumeric(c) {
            clean = false;
        }
        index = index + 1;
    }
    assert(filename@.take(index as int) =~= filename@);
    proof {
        reveal_strlit("");
    }
    match dot {
        Some(d) => {
            if clean {
                let ext = filename.substring_char(d, length);
                assert(ext@ =~= filename@.skip(d as int));
                ext
            } else {
                ""
            }
        },
        None => "",
    }
}

proof fn lemma_last_dot(name: Seq<char>)
    ensures
        -1 <= last_dot(name) < name.len(),
        last_dot(name) >= 0 ==> name[last_dot(name)] == '.',
        forall|i: int| last_dot(name) < i < name.len() ==> #[trigger] name[i] != '.',
    decreases name.len(),
{
    if name.len() > 0 && name.last() != '.' {
        let front = name.drop_last();
        lemma_last_dot(front);
        assert forall|i: int| last_dot(name) < i < name.len() implies #[trigger] name[i]
            != '.' by {
            if i < front.len() {
                assert(front[i] == name[i]);
            }
        }
    }
}

/// An extension is empty, or it is the end of the name that begins at the name's last
/// dot, and holds that one dot and then letters and digits only.
pub proof fn lemma_extension_shape(name: Seq<char>)
    ensures
        ({
            let ext = extension_of(name);
            ext.len() == 0 || {
                &&& ext.len() <= name.len()
                &&& ext == name.skip(name.len() - ext.len())
                &&& ext[0] == '.'
                &&& forall|i: int| 0 < i < ext.len() ==> is_alphanumeric(#[trigger] ext[i])
                &&& forall|i: int|
                    name.len() - ext.len() < i < name.len() ==> #[trigger] name[i] != '.'
            }
        }),
{
    lemma_last_dot(name);
    let dot = last_dot(name);
    let ext = extension_of(name);
    if ext.len() > 0 {
        assert(ext == name.skip(dot));
        assert forall|i: int| 0 < i < ext.len() implies is_alphanumeric(#[trigger] ext[i]) by {
            assert(ext[i] == name[dot + i]);
        }
    }
}

} // verus!
