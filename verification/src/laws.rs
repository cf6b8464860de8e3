//! What holds of the controller over several operations.

use vstd::prelude::*;
use crate::data::EntryView;
use crate::query::CriteriaView;
use crate::search::{SearchView, Ticket};

verus! {

/// The ticket of the next request of a state.
pub open spec fn next_ticket(state: SearchView, is_continuation: bool) -> Ticket {
    Ticket { number: (state.issued + 1) as u64, is_continuation }
}

/// The state of a new controller is well formed, and every operation keeps a state
/// well formed.
pub proof fn lemma_operations_keep_well_formed(
    state: SearchView,
    draft: CriteriaView,
    ticket: Ticket,
    entries: Seq<EntryView>,
    message: Seq<char>,
)
    requires
        state.wf(),
    ensures
        SearchView::initial().wf(),
        state.with_draft(draft).wf(),
        state.after_search().wf(),
        state.after_load_more().wf(),
        state.after_success(ticket, entries).wf(),
        state.after_failure(ticket, message).wf(),
{
}

/// An edit of the draft criteria shows in the draft and leaves everything else as it
/// was: the committed criteria change only when a search starts, and then they are
/// the draft.
pub proof fn lemma_edits_leave_committed(state: SearchView, first: CriteriaView, last: CriteriaView)
    ensures
        state.with_draft(first).with_draft(last).draft == last,
        state.with_draft(first).with_draft(last).committed == state.committed,
        state.with_draft(first).with_draft(last) == state.with_draft(last),
        state.with_draft(last).after_search().committed == last,
{
}

/// Searching twice in a row with the same criteria and the same answers gives the
/// results of searching once, in whichever order the two answers arrive: the answer
/// to the first request is stale and is not applied.
pub proof fn lemma_search_twice(state: SearchView, entries: Seq<EntryView>)
    requires
        state.wf(),
        state.issued + 2 <= u64::MAX,
    ensures
        ({
            let once = state.after_search();
            let first = next_ticket(state, false);
            let twice = once.after_search();
            let second = next_ticket(once, false);
            &&& once.after_success(first, entries).results == entries
            &&& twice.after_success(first, entries) == twice
            &&& twice.after_success(first, entries).after_success(second, entries).results
                == entries
            &&& twice.after_success(second, entries).after_success(first, entries).results
                == entries
            &&& twice.after_success(first, entries).after_success(second, entries)
                == twice.after_success(second, entries).after_success(first, entries)
        }),
{
}

/// Loading more appends: once the continuation's answer has arrived, the results are
/// the results held before, followed by the new entries, nothing dropped or reordered.
pub proof fn lemma_load_more_appends(state: SearchView, entries: Seq<EntryView>)
    requires
        state.wf(),
        state.can_load_more,
        state.issued < u64::MAX,
    ensures
        state.after_load_more().after_success(next_ticket(state, true), entries).results
            == state.results + entries,
{
}

/// Where more can be loaded there is an entry to continue behind: the continuation
/// has a cursor, the creation time of the last entry held.
pub proof fn lemma_load_more_has_cursor(state: SearchView)
    requires
        state.wf(),
        state.can_load_more,
    ensures
        state.cursor() == Some(state.results.last().created()),
{
}

/// Loading more where no more can be loaded changes nothing.
pub proof fn lemma_load_more_needs_more(state: SearchView)
    requires
        !state.can_load_more,
    ensures
        state.after_load_more() == state,
{
}

/// An answer is applied at most once: after it was handled, it is no longer awaited,
/// and handling it again changes nothing.
pub proof fn lemma_answer_applies_once(
    state: SearchView,
    ticket: Ticket,
    entries: Seq<EntryView>,
    message: Seq<char>,
)
    requires
        state.wf(),
    ensures
        !state.after_success(ticket, entries).awaits(ticket),
        !state.after_failure(ticket, message).awaits(ticket),
        state.after_success(ticket, entries).after_success(ticket, entries)
            == state.after_success(ticket, entries),
        state.after_failure(ticket, message).after_failure(ticket, message)
            == state.after_failure(ticket, message),
{
}

/// A new request supersedes the earlier ones of its kind: once it is issued, no
/// ticket that was issued before it for the same kind of request is awaited.
pub proof fn lemma_new_request_supersedes(state: SearchView, earlier: Ticket)
    requires
        state.wf(),
        1 <= earlier.number <= state.issued,
    ensures
        !earlier.is_continuation ==> !state.after_search().awaits(earlier),
        earlier.is_continuation && state.can_load_more ==> !state.after_load_more().awaits(
            earlier,
        ),
{
}

/// The answer to a fresh search ends the lineage before it: a continuation that was
/// still under way is no longer awaited, so that its entries cannot follow the new
/// results.
pub proof fn lemma_fresh_results_end_lineage(
    state: SearchView,
    ticket: Ticket,
    entries: Seq<EntryView>,
    other: Ticket,
)
    requires
        state.wf(),
        !ticket.is_continuation,
        state.awaits(ticket),
    ensures
        !state.after_success(ticket, entries).awaits(other),
        state.after_success(ticket, entries).results == entries,
{
}

/// A failure leaves the results as they were.
pub proof fn lemma_failure_keeps_results(state: SearchView, ticket: Ticket, message: Seq<char>)
    ensures
        state.after_failure(ticket, message).results == state.results,
{
}

} // verus!
