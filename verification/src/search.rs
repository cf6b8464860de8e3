//! The search controller: criteria, the request lifecycle, results and pagination.

use vstd::prelude::*;
use vstd::string::StringExecFns;
use crate::data::{entry_views, text_of, Entry, EntryView};
use crate::query::{build_url, url_of, CriteriaView, SearchOptions, SearchType};
use crate::text::{decimal, parse_integer, parsed, push_digits};

verus! {

/// The ways in which an operation of the controller can fail.
#[derive(Clone, Copy, Debug, PartialEq, Eq, Structural)]
pub enum SearchError {
    /// An edit of the criteria was malformed; the criteria are unchanged.
    InvalidInput,
    /// The service answered with a status that is no success.
    RequestFailed,
    /// The body of the answer did not have the expected shape.
    MalformedResponse,
    /// The answer belongs to a request that a later one has superseded.
    StaleResponse,
}

/// The tag of an issued request, by which its answer is recognised.
#[derive(Clone, Copy, Debug, PartialEq, Eq, Structural)]
pub struct Ticket {
    /// The number of the request among all requests of this controller, from 1.
    pub number: u64,
    /// Whether the request continues the current results rather than starting afresh.
    pub is_continuation: bool,
}

/// A request that the caller is to send: a GET of `url`, answered under `ticket`.
#[derive(Debug, PartialEq, Eq)]
pub struct Request {
    pub url: String,
    pub ticket: Ticket,
}

/// A failed request: its kind, and the message to show.
#[derive(Debug, PartialEq, Eq)]
pub struct Failure {
    pub kind: SearchError,
    pub message: String,
}

/// What can happen to a controller: the user's edits and clicks, and the answers to
/// its requests.
#[derive(Debug, PartialEq, Eq)]
pub enum Msg {
    DoSearch,
    SearchSuccess(Ticket, Vec<Entry>),
    SearchFail(Ticket, String),
    AuthorInput(String),
    SubredditInput(String),
    SearchInput(String),
    DoMore,
    SearchTypeInput(SearchType),
    ScoreFilterInput(String),
    NumReturnedInput(String),
}

/// What the caller is to do after a message was handled.
#[derive(Debug, PartialEq, Eq)]
pub struct Update {
    /// Whether what is shown may have changed.
    pub render: bool,
    /// The request to send, if the message started one.
    pub request: Option<Request>,
}

/// Whether a status of HTTP reports success.
pub open spec fn is_success(status: u16) -> bool {
    200 <= status < 300
}

/// The message shown for a status that reports no success.
pub open spec fn status_message(status: u16) -> Seq<char> {
    "Error: "@ + decimal(status as int)
}

/// The state of a search controller, as a mathematical value.
#[verifier::ext_equal]
pub struct SearchView {
    /// The criteria being edited.
    pub draft: CriteriaView,
    /// The criteria of the most recent search, which its continuations use.
    pub committed: CriteriaView,
    /// The entries held, in the order in which they arrived.
    pub results: Seq<EntryView>,
    pub is_searching: bool,
    pub is_loading_more: bool,
    pub last_error: Option<Seq<char>>,
    pub can_load_more: bool,
    /// How many requests have been issued so far.
    pub issued: nat,
    /// The number of the fresh search whose answer is awaited, if any.
    pub awaited_search: Option<nat>,
    /// The number of the continuation whose answer is awaited, if any.
    pub awaited_more: Option<nat>,
}

impl SearchView {
    /// The state of a new controller.
    pub open spec fn initial() -> SearchView {
        SearchView {
            draft: CriteriaView::initial(),
            committed: CriteriaView::initial(),
            results: Seq::empty(),
            is_searching: false,
            is_loading_more: false,
            last_error: None,
            can_load_more: false,
            issued: 0,
            awaited_search: None,
            awaited_more: None,
        }
    }

    /// What holds of every state of a controller: an awaited request is one that was
    /// issued, the two awaited requests differ, a raised flag has its request, and
    /// more can be loaded only behind an entry that is held.
    pub open spec fn wf(self) -> bool {
        &&& self.awaited_search matches Some(n) ==> 1 <= n <= self.issued
        &&& self.awaited_more matches Some(n) ==> 1 <= n <= self.issued
        &&& self.awaited_search is Some ==> self.awaited_search != self.awaited_more
        &&& self.is_searching ==> self.awaited_search is Some
        &&& self.is_loading_more ==> self.awaited_more is Some
        &&& self.can_load_more ==> self.results.len() > 0
    }

    /// The cursor of a continuation: the creation time of the last entry held.
    pub open spec fn cursor(self) -> Option<int> {
        if self.results.len() > 0 {
            Some(self.results.last().created())
        } else {
            None
        }
    }

    /// The state with the draft criteria replaced.
    pub open spec fn with_draft(self, draft: CriteriaView) -> SearchView {
        SearchView { draft, ..self }
    }

    /// The state after a fresh search was started.
    pub open spec fn after_search(self) -> SearchView {
        SearchView {
            committed: self.draft,
            is_searching: true,
            last_error: None,
            issued: self.issued + 1,
            awaited_search: Some(self.issued + 1),
            ..self
        }
    }

    /// The state after a continuation was asked for: unchanged unless more can be loaded.
    pub open spec fn after_load_more(self) -> SearchView {
        if self.can_load_more {
            SearchView {
                is_loading_more: true,
                issued: self.issued + 1,
                awaited_more: Some(self.issued + 1),
                ..self
            }
        } else {
            self
        }
    }

    /// Whether the answer under `ticket` is awaited: it belongs to the most recent
    /// request of its kind, which has not been answered or superseded.
    pub open spec fn awaits(self, ticket: Ticket) -> bool {
        if ticket.is_continuation {
            self.awaited_more == Some(ticket.number as nat)
        } else {
            self.awaited_search == Some(ticket.number as nat)
        }
    }

    /// The state after the answer under `ticket` arrived with `entries`. An answer that
    /// is not awaited changes nothing. A fresh search replaces the results and
    /// supersedes a continuation still under way; a continuation appends to them.
    pub open spec fn after_success(self, ticket: Ticket, entries: Seq<EntryView>) -> SearchView {
        if !self.awaits(ticket) {
            self
        } else if ticket.is_continuation {
            SearchView {
                results: self.results + entries,
                last_error: None,
                can_load_more: entries.len() > 0,
                is_searching: false,
                is_loading_more: false,
                awaited_more: None,
                ..self
            }
        } else {
            SearchView {
                results: entries,
                last_error: None,
                can_load_more: entries.len() > 0,
                is_searching: false,
                is_loading_more: false,
                awaited_search: None,
                awaited_more: None,
                ..self
            }
        }
    }

    /// The state after the request under `ticket` failed with `message`. A failure that
    /// is not awaited changes nothing; an awaited one leaves the results as they are.
    pub open spec fn after_failure(self, ticket: Ticket, message: Seq<char>) -> SearchView {
        if !self.awaits(ticket) {
            self
        } else {
            SearchView {
                last_error: Some(message),
                can_load_more: false,
                is_searching: false,
                is_loading_more: false,
                awaited_search: if ticket.is_continuation {
                    self.awaited_search
                } else {
                    None
                },
                awaited_more: None,
                ..self
            }
        }
    }
}

impl SearchView {
    /// The state after an edit of the result limit given as text: the limit is set
    /// where the text denotes a positive integer, and nothing changes otherwise.
    pub open spec fn after_limit_text(self, text: Seq<char>) -> SearchView {
        match parsed(text) {
            Some(limit) => if limit >= 1 {
                self.with_draft(CriteriaView { num_returned: Some(limit as nat), ..self.draft })
            } else {
                self
            },
            None => self,
        }
    }

    /// The state after a message was handled.
    pub open spec fn after(self, message: Msg) -> SearchView {
        match message {
            Msg::DoSearch => self.after_search(),
            Msg::DoMore => self.after_load_more(),
            Msg::SearchSuccess(ticket, entries) => self.after_success(
                ticket,
                entry_views(entries@),
            ),
            Msg::SearchFail(ticket, message) => self.after_failure(ticket, message@),
            Msg::AuthorInput(text) => self.with_draft(
                CriteriaView { author: Some(text@), ..self.draft },
            ),
            Msg::SubredditInput(text) => self.with_draft(
                CriteriaView { subreddit: Some(text@), ..self.draft },
            ),
            Msg::SearchInput(text) => self.with_draft(
                CriteriaView { search_term: Some(text@), ..self.draft },
            ),
            Msg::SearchTypeInput(search_type) => self.with_draft(
                CriteriaView { search_type, ..self.draft },
            ),
            Msg::ScoreFilterInput(text) => self.with_draft(
                CriteriaView { score_filter: Some(text@), ..self.draft },
            ),
            Msg::NumReturnedInput(text) => self.after_limit_text(text@),
        }
    }

    /// Whether handling a message may change what is shown: a search or a
    /// continuation that starts, and an answer that is awaited.
    pub open spec fn renders(self, message: Msg) -> bool {
        match message {
            Msg::DoSearch => true,
            Msg::DoMore => self.can_load_more,
            Msg::SearchSuccess(ticket, _) => self.awaits(ticket),
            Msg::SearchFail(ticket, _) => self.awaits(ticket),
            _ => false,
        }
    }

    /// Whether handling a message starts a request.
    pub open spec fn requests(self, message: Msg) -> bool {
        match message {
            Msg::DoSearch => true,
            Msg::DoMore => self.can_load_more,
            _ => false,
        }
    }

    /// The URL of the request that a message starts.
    pub open spec fn request_url(self, message: Msg) -> Seq<char> {
        if message is DoMore {
            url_of(self.committed, self.cursor())
        } else {
            url_of(self.draft, None)
        }
    }
}

/// The number of an awaited request as a mathematical value.
pub open spec fn number_of(awaited: Option<u64>) -> Option<nat> {
    match awaited {
        Some(n) => Some(n as nat),
        None => None,
    }
}

/// The search controller. It owns the criteria being edited, the criteria of the
/// search under way, the results, and the state of the requests; it sends nothing
/// itself, but hands out the requests to send and takes their answers.
#[derive(Debug)]
pub struct Search {
    searching: bool,
    entry_data: Vec<Entry>,
    last_error: Option<String>,
    show_more_button: bool,
    moreing: bool,
    options: SearchOptions,
    used_options: SearchOptions,
    issued: u64,
    awaited_search: Option<u64>,
    awaited_more: Option<u64>,
}

impl View for Search {
    type V = SearchView;

    closed spec fn view(&self) -> SearchView {
        SearchView {
            draft: self.options@,
            committed: self.used_options@,
            results: entry_views(self.entry_data@),
            is_searching: self.searching,
            is_loading_more: self.moreing,
            last_error: text_of(self.last_error),
            can_load_more: self.show_more_button,
            issued: self.issued as nat,
            awaited_search: number_of(self.awaited_search),
            awaited_more: number_of(self.awaited_more),
        }
    }
}

impl Search {
    #[verifier::type_invariant]
    spec fn well_formed(self) -> bool {
        self@.wf()
    }

    /// A new controller: default criteria, no results, nothing under way.
    pub fn create() -> (search: Self)
        ensures
            search@ == SearchView::initial(),
    {
        Search {
            searching: false,
            entry_data: Vec::new(),
            last_error: None,
            show_more_button: false,
            moreing: false,
            options: SearchOptions::new(),
            used_options: SearchOptions::new(),
            issued: 0,
            awaited_search: None,
            awaited_more: None,
        }
    }

    /// Sets the author of the draft criteria. Nothing else changes.
    pub fn set_author(&mut self, author: String)
        ensures
            final(self)@ == old(self)@.with_draft(
                CriteriaView { author: Some(author@), ..old(self)@.draft },
            ),
            final(self)@.wf(),
    {
        proof {
            use_type_invariant(&*self);
        }
        self.options.author = Some(author);
    }

    /// Sets the subreddit of the draft criteria. Nothing else changes.
    pub fn set_subreddit(&mut self, subreddit: String)
        ensures
            final(self)@ == old(self)@.with_draft(
                CriteriaView { subreddit: Some(subreddit@), ..old(self)@.draft },
            ),
            final(self)@.wf(),
    {
        proof {
            use_type_invariant(&*self);
        }
        self.options.subreddit = Some(subreddit);
    }

    /// Sets the search term of the draft criteria. Nothing else changes.
    pub fn set_search_term(&mut self, search_term: String)
        ensures
            final(self)@ == old(self)@.with_draft(
                CriteriaView { search_term: Some(search_term@), ..old(self)@.draft },
            ),
            final(self)@.wf(),
    {
        proof {
            use_type_invariant(&*self);
        }
        self.options.search_term = Some(search_term);
    }

    /// Sets the kind of content of the draft criteria. Nothing else changes.
    pub fn set_content_type(&mut self, search_type: SearchType)
        ensures
            final(self)@ == old(self)@.with_draft(
                CriteriaView { search_type, ..old(self)@.draft },
            ),
            final(self)@.wf(),
    {
        proof {
            use_type_invariant(&*self);
        }
        self.options.search_type = search_type;
    }

    /// Sets the score filter of the draft criteria. Nothing else changes.
    pub fn set_score_filter(&mut self, score_filter: String)
        ensures
            final(self)@ == old(self)@.with_draft(
                CriteriaView { score_filter: Some(score_filter@), ..old(self)@.draft },
            ),
            final(self)@.wf(),
    {
        proof {
            use_type_invariant(&*self);
        }
        self.options.score_filter = Some(score_filter);
    }

    /// Sets the result limit of the draft criteria to `limit` if that is positive.
    /// Otherwise the edit is refused and nothing changes.
    pub fn set_result_limit(&mut self, limit: i64) -> (outcome: Result<(), SearchError>)
        ensures
            limit >= 1 ==> outcome is Ok && final(self)@ == old(self)@.with_draft(
                CriteriaView { num_returned: Some(limit as nat), ..old(self)@.draft },
            ),
            limit < 1 ==> outcome == Err::<(), SearchError>(SearchError::InvalidInput),
            limit < 1 ==> final(self)@ == old(self)@,
            final(self)@.wf(),
    {
        proof {
            use_type_invariant(&*self);
        }
        if limit >= 1 {
            self.options.num_returned = Some(limit as u64);
            Ok(())
        } else {
            Err(SearchError::InvalidInput)
        }
    }

    /// Whether another request can be given a number.
    pub fn can_issue(&self) -> (possible: bool)
        ensures
            possible == (self@.issued < u64::MAX),
    {
        self.issued < u64::MAX
    }

    /// Starts a fresh search: commits the draft criteria, clears the last error, raises
    /// the searching flag, and returns the request to send. Its answer supersedes that
    /// of any fresh search started before.
    pub fn search(&mut self) -> (request: Request)
        requires
            old(self)@.issued < u64::MAX,
        ensures
            final(self)@ == old(self)@.after_search(),
            request.url@ == url_of(old(self)@.draft, None),
            request.ticket == (Ticket {
                number: (old(self)@.issued + 1) as u64,
                is_continuation: false,
            }),
            final(self)@.wf(),
    {
        proof {
            use_type_invariant(&*self);
        }
        let number = self.issued + 1;
        self.issued = number;
        self.awaited_search = Some(number);
        self.searching = true;
        self.used_options = self.options.clone();
        self.last_error = None;
        let url = build_url(&self.used_options, None);
        Request { url, ticket: Ticket { number, is_continuation: false } }
    }

    /// Asks for the entries behind the last one held, under the committed criteria.
    /// Where no more can be loaded this does nothing and returns no request.
    pub fn load_more(&mut self) -> (request: Option<Request>)
        requires
            old(self)@.can_load_more ==> old(self)@.issued < u64::MAX,
        ensures
            final(self)@ == old(self)@.after_load_more(),
            request is Some == old(self)@.can_load_more,
            request matches Some(r) ==> r.url@ == url_of(
                old(self)@.committed,
                old(self)@.cursor(),
            ) && r.ticket == (Ticket {
                number: (old(self)@.issued + 1) as u64,
                is_continuation: true,
            }),
            final(self)@.wf(),
    {
        proof {
            use_type_invariant(&*self);
        }
        if !self.show_more_button {
            return None;
        }
        let number = self.issued + 1;
        self.issued = number;
        self.awaited_more = Some(number);
        self.moreing = true;
        let cursor = self.cursor();
        let url = build_url(&self.used_options, cursor);
        Some(Request { url, ticket: Ticket { number, is_continuation: true } })
    }

    /// The creation time of the last entry held, if any.
    pub fn cursor(&self) -> (cursor: Option<i64>)
        ensures
            match cursor {
                Some(c) => self@.cursor() == Some(c as int),
                None => self@.cursor() is None,
            },
    {
        let count = self.entry_data.len();
        if count > 0 {
            Some(self.entry_data[count - 1].get_created())
        } else {
            None
        }
    }

    /// Whether the answer under `ticket` is awaited.
    pub fn awaits(&self, ticket: Ticket) -> (awaited: bool)
        ensures
            awaited == self@.awaits(ticket),
    {
        let awaited = if ticket.is_continuation {
            self.awaited_more
        } else {
            self.awaited_search
        };
        match awaited {
            Some(number) => number == ticket.number,
            None => false,
        }
    }

    /// Takes the entries that answer the request under `ticket`. An answer that is not
    /// awaited is discarded. Otherwise the entries replace the results, for a fresh
    /// search, or are appended to them, for a continuation; the last error is cleared,
    /// both flags are lowered, and more can be loaded if any entry came.
    pub fn on_success(&mut self, ticket: Ticket, entries: Vec<Entry>) -> (outcome: Result<
        (),
        SearchError,
    >)
        ensures
            final(self)@ == old(self)@.after_success(ticket, entry_views(entries@)),
            old(self)@.awaits(ticket) ==> outcome is Ok,
            !old(self)@.awaits(ticket) ==> outcome == Err::<(), SearchError>(
                SearchError::StaleResponse,
            ),
            final(self)@.wf(),
    {
        proof {
            use_type_invariant(&*self);
        }
        if !self.awaits(ticket) {
            return Err(SearchError::StaleResponse);
        }
        let mut entries = entries;
        self.searching = false;
        self.moreing = false;
        self.awaited_more = None;
        self.last_error = None;
        self.show_more_button = false;
        let any = entries.len() > 0;
        if ticket.is_continuation {
            let mut held: Vec<Entry> = Vec::new();
            std::mem::swap(&mut self.entry_data, &mut held);
            held.append(&mut entries);
            self.entry_data = held;
        } else {
            self.awaited_search = None;
            self.entry_data = entries;
        }
        self.show_more_button = any;
        Ok(())
    }

    /// Takes the failure of the request under `ticket`. A failure that is not awaited
    /// is discarded. Otherwise `message` becomes the last error, no more can be loaded,
    /// both flags are lowered, and the results stay as they are.
    pub fn on_failure(&mut self, ticket: Ticket, message: String) -> (outcome: Result<
        (),
        SearchError,
    >)
        ensures
            final(self)@ == old(self)@.after_failure(ticket, message@),
            old(self)@.awaits(ticket) ==> outcome is Ok,
            !old(self)@.awaits(ticket) ==> outcome == Err::<(), SearchError>(
                SearchError::StaleResponse,
            ),
            final(self)@.wf(),
    {
        proof {
            use_type_invariant(&*self);
        }
        if !self.awaits(ticket) {
            return Err(SearchError::StaleResponse);
        }
        self.searching = false;
        self.moreing = false;
        self.awaited_more = None;
        if !ticket.is_continuation {
            self.awaited_search = None;
        }
        self.last_error = Some(message);
        self.show_more_button = false;
        Ok(())
    }

    /// Sets the result limit of the draft criteria from the text of an input field.
    /// A text that denotes no positive integer is refused and nothing changes.
    pub fn set_result_limit_text(&mut self, text: &str) -> (outcome: Result<(), SearchError>)
        ensures
            final(self)@ == old(self)@.after_limit_text(text@),
            outcome is Ok <==> (parsed(text@) matches Some(limit) && limit >= 1),
            outcome is Err ==> outcome == Err::<(), SearchError>(SearchError::InvalidInput),
            final(self)@.wf(),
    {
        proof {
            use_type_invariant(&*self);
        }
        match parse_integer(text) {
            Some(limit) => self.set_result_limit(limit),
            None => Err(SearchError::InvalidInput),
        }
    }

    /// Takes the answer to the request under `ticket`: its status, and its body as
    /// decoded by the caller, or the decoder's complaint. An answer that is not awaited
    /// is discarded with `StaleResponse`. An awaited one is handled as a success where
    /// the status reports success and the body was decoded, and as a failure otherwise,
    /// which is reported by its kind.
    pub fn on_response(
        &mut self,
        ticket: Ticket,
        status: u16,
        decoded: Result<Vec<Entry>, String>,
    ) -> (outcome: Result<(), SearchError>)
        ensures
            !old(self)@.awaits(ticket) ==> final(self)@ == old(self)@ && outcome == Err::<
                (),
                SearchError,
            >(SearchError::StaleResponse),
            old(self)@.awaits(ticket) ==> match decoded {
                Ok(entries) => if is_success(status) {
                    final(self)@ == old(self)@.after_success(ticket, entry_views(entries@))
                        && outcome is Ok
                } else {
                    final(self)@ == old(self)@.after_failure(ticket, status_message(status))
                        && outcome == Err::<(), SearchError>(SearchError::RequestFailed)
                },
                Err(text) => if is_success(status) {
                    final(self)@ == old(self)@.after_failure(ticket, text@) && outcome == Err::<
                        (),
                        SearchError,
                    >(SearchError::MalformedResponse)
                } else {
                    final(self)@ == old(self)@.after_failure(ticket, status_message(status))
                        && outcome == Err::<(), SearchError>(SearchError::RequestFailed)
                },
            },
            final(self)@.wf(),
    {
        proof {
            use_type_invariant(&*self);
        }
        if !self.awaits(ticket) {
            return Err(SearchError::StaleResponse);
        }
        match classify_response(status, decoded) {
            Ok(entries) => self.on_success(ticket, entries),
            Err(failure) => {
                let _ = self.on_failure(ticket, failure.message);
                Err(failure.kind)
            },
        }
    }

    /// Handles one message: applies it to the state, and says whether to render again
    /// and which request to send.
    pub fn update(&mut self, message: Msg) -> (update: Update)
        requires
            old(self)@.requests(message) ==> old(self)@.issued < u64::MAX,
        ensures
            final(self)@ == old(self)@.after(message),
            update.render == old(self)@.renders(message),
            update.request is Some == old(self)@.requests(message),
            update.request matches Some(request) ==> request.url@ == old(self)@.request_url(
                message,
            ) && request.ticket == (Ticket {
                number: (old(self)@.issued + 1) as u64,
                is_continuation: message is DoMore,
            }),
            final(self)@.wf(),
    {
        proof {
            use_type_invariant(&*self);
        }
        match message {
            Msg::DoSearch => {
                let request = self.search();
                Update { render: true, request: Some(request) }
            },
            Msg::DoMore => {
                let request = self.load_more();
                Update { render: request.is_some(), request }
            },
            Msg::SearchSuccess(ticket, entries) => {
                let outcome = self.on_success(ticket, entries);
                Update { render: outcome.is_ok(), request: None }
            },
            Msg::SearchFail(ticket, message) => {
                let outcome = self.on_failure(ticket, message);
                Update { render: outcome.is_ok(), request: None }
            },
            Msg::AuthorInput(text) => {
                self.set_author(text);
                Update { render: false, request: None }
            },
            Msg::SubredditInput(text) => {
                self.set_subreddit(text);
                Update { render: false, request: None }
            },
            Msg::SearchInput(text) => {
                self.set_search_term(text);
                Update { render: false, request: None }
            },
            Msg::SearchTypeInput(search_type) => {
                self.set_content_type(search_type);
                Update { render: false, request: None }
            },
            Msg::ScoreFilterInput(text) => {
                self.set_score_filter(text);
                Update { render: false, request: None }
            },
            Msg::NumReturnedInput(text) => {
                let _ = self.set_result_limit_text(text.as_str());
                Update { render: false, request: None }
            },
        }
    }

    /// The criteria being edited.
    pub fn draft(&self) -> (draft: &SearchOptions)
        ensures
            draft@ == self@.draft,
    {
        &self.options
    }

    /// The criteria of the most recent search.
    pub fn committed(&self) -> (committed: &SearchOptions)
        ensures
            committed@ == self@.committed,
    {
        &self.used_options
    }

    /// The entries held, in the order in which they arrived.
    pub fn results(&self) -> (results: &Vec<Entry>)
        ensures
            entry_views(results@) == self@.results,
    {
        &self.entry_data
    }

    /// Whether a fresh search is under way.
    pub fn is_searching(&self) -> (flag: bool)
        ensures
            flag == self@.is_searching,
    {
        self.searching
    }

    /// Whether a continuation is under way.
    pub fn is_loading_more(&self) -> (flag: bool)
        ensures
            flag == self@.is_loading_more,
    {
        self.moreing
    }

    /// The message of the last failure, if the last answer was one.
    pub fn last_error(&self) -> (message: &Option<String>)
        ensures
            text_of(*message) == self@.last_error,
    {
        &self.last_error
    }

    /// Whether the last answer brought entries, so that more may follow.
    pub fn can_load_more(&self) -> (flag: bool)
        ensures
            flag == self@.can_load_more,
    {
        self.show_more_button
    }
}

/// Sorts an answer: the entries, where the status reports success and the body was
/// decoded; a malformed response with the decoder's complaint, where the status reports
/// success and the body was not decoded; a failed request with the status, otherwise.
pub fn classify_response(status: u16, decoded: Result<Vec<Entry>, String>) -> (outcome: Result<
    Vec<Entry>,
    Failure,
>)
    ensures
        match decoded {
            Ok(entries) => if is_success(status) {
                outcome == Ok::<Vec<Entry>, Failure>(entries)
            } else {
                outcome matches Err(failure) && failure.kind == SearchError::RequestFailed
                    && failure.message@ == status_message(status)
            },
            Err(text) => if is_success(status) {
                outcome == Err::<Vec<Entry>, Failure>(
                    Failure { kind: SearchError::MalformedResponse, message: text },
                )
            } else {
                outcome matches Err(failure) && failure.kind == SearchError::RequestFailed
                    && failure.message@ == status_message(status)
            },
        },
{
    if 200 <= status && status < 300 {
        match decoded {
            Ok(entries) => Ok(entries),
            Err(text) => Err(Failure { kind: SearchError::MalformedResponse, message: text }),
        }
    } else {
        let mut message = "Error: ".to_string();
        push_digits(&mut message, status as u64);
        Err(Failure { kind: SearchError::RequestFailed, message })
    }
}

/// The message that hands an answer to the controller.
pub fn response_message(
    ticket: Ticket,
    status: u16,
    decoded: Result<Vec<Entry>, String>,
) -> (message: Msg)
    ensures
        match decoded {
            Ok(entries) => if is_success(status) {
                message == Msg::SearchSuccess(ticket, entries)
            } else {
                message matches Msg::SearchFail(t, text) && t == ticket && text@
                    == status_message(status)
            },
            Err(complaint) => if is_success(status) {
                message == Msg::SearchFail(ticket, complaint)
            } else {
                message matches Msg::SearchFail(t, text) && t == ticket && text@
                    == status_message(status)
            },
        },
{
    match classify_response(status, decoded) {
        Ok(entries) => Msg::SearchSuccess(ticket, entries),
        Err(failure) => Msg::SearchFail(ticket, failure.message),
    }
}

} // verus!
