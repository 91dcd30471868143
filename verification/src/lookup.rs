use crate::page::{record_from_page, record_of_page, LookupError};
use crate::record::{flattened, opt_view, parsed_fields, record_fields, InfoView, TranslationInfo};
use crate::resolver::{get_search_result, resolved};
use crate::store::{
    answers, appended, count_flat, first_answer, get_cached_translation_info_for_query,
    lookup_of, Store, StoreView,
};
use vstd::prelude::*;

verus! {

/// Where a lookup stands.
#[derive(Debug)]
pub enum LookupState {
    /// Nothing has been done yet.
    Start,
    /// The suggestion request is under way.
    AwaitingSuggestions,
    /// The request for the entry's page is under way.
    AwaitingPage { search_result: String },
    /// The lookup has ended.
    Finished,
}

/// What happened outside since the last step.
#[derive(Debug)]
pub enum LookupEvent {
    /// The lookup is to begin.
    Begin,
    /// The text that the last request brought.
    Response(String),
    /// The last request failed in transport.
    TransportFailed,
}

/// What is to be done next.
#[derive(Debug)]
pub enum LookupAction {
    /// Request this address, and come back with what it brought.
    Fetch(String),
    /// The lookup's record, and whether it came from the store.
    Found(TranslationInfo, bool),
    /// The lookup failed.
    Fail(LookupError),
}

/// The mathematical value of a state.
pub enum StateView {
    Start,
    AwaitingSuggestions,
    AwaitingPage(Seq<char>),
    Finished,
}

/// The mathematical value of an event.
pub enum EventView {
    Begin,
    Response(Seq<char>),
    TransportFailed,
}

/// The mathematical value of an action.
pub enum ActionView {
    Fetch(Seq<char>),
    Found(InfoView, bool),
    Fail(LookupError),
}

impl View for LookupState {
    type V = StateView;

    open spec fn view(&self) -> StateView {
        match *self {
            LookupState::Start => StateView::Start,
            LookupState::AwaitingSuggestions => StateView::AwaitingSuggestions,
            LookupState::AwaitingPage { search_result } => StateView::AwaitingPage(search_result@),
            LookupState::Finished => StateView::Finished,
        }
    }
}

impl View for LookupEvent {
    type V = EventView;

    open spec fn view(&self) -> EventView {
        match *self {
            LookupEvent::Begin => EventView::Begin,
            LookupEvent::Response(text) => EventView::Response(text@),
            LookupEvent::TransportFailed => EventView::TransportFailed,
        }
    }
}

impl View for LookupAction {
    type V = ActionView;

    open spec fn view(&self) -> ActionView {
        match *self {
            LookupAction::Fetch(url) => ActionView::Fetch(url@),
            LookupAction::Found(info, cached) => ActionView::Found(info@, cached),
            LookupAction::Fail(e) => ActionView::Fail(e),
        }
    }
}

/// The address of the suggestion request for a query.
pub open spec fn suggestions_url(query: Seq<char>) -> Seq<char> {
    "https://api.openrussian.org/suggestions?q="@ + query + "&dummy=1654996242200&lang=en"@
}

/// The address of an entry's page.
pub open spec fn entry_url(entry: Seq<char>) -> Seq<char> {
    "https://en.openrussian.org/ru/"@ + entry
}

/// One step of a lookup.
///
/// At the beginning an empty query fails; a query that the store answers
/// ends the lookup with the stored record and no request; any other asks for
/// suggestions. The suggestions either resolve to an entry, whose page is
/// asked for, or end the lookup with the reason. The page either gives the
/// record or ends the lookup with the part that is missing. A request that
/// failed in transport ends the lookup, and so does an event that the state
/// was not waiting for.
pub open spec fn step_of(
    store: StoreView,
    query: Seq<char>,
    supplied: Option<Seq<char>>,
    state: StateView,
    event: EventView,
) -> (StateView, ActionView) {
    match (state, event) {
        (StateView::Start, EventView::Begin) => if query.len() == 0 {
            (StateView::Finished, ActionView::Fail(LookupError::EmptyQuery))
        } else {
            match lookup_of(store, query) {
                Ok(Some(v)) => (StateView::Finished, ActionView::Found(v, true)),
                _ => (StateView::AwaitingSuggestions, ActionView::Fetch(suggestions_url(query))),
            }
        },
        (StateView::AwaitingSuggestions, EventView::Response(text)) => match resolved(text) {
            Ok(entry) => (StateView::AwaitingPage(entry), ActionView::Fetch(entry_url(entry))),
            Err(e) => (StateView::Finished, ActionView::Fail(e)),
        },
        (StateView::AwaitingSuggestions, EventView::TransportFailed) => (
            StateView::Finished,
            ActionView::Fail(LookupError::Network),
        ),
        (StateView::AwaitingPage(entry), EventView::Response(page)) => match record_of_page(
            query,
            entry,
            supplied,
            page,
        ) {
            Ok(v) => (StateView::Finished, ActionView::Found(v, false)),
            Err(e) => (StateView::Finished, ActionView::Fail(e)),
        },
        (StateView::AwaitingPage(_), EventView::TransportFailed) => (
            StateView::Finished,
            ActionView::Fail(LookupError::Network),
        ),
        _ => (StateView::Finished, ActionView::Fail(LookupError::Unexpected)),
    }
}

/// Builds the address of the suggestion request for a query.
pub fn make_suggestions_url(search_query: &str) -> (r: String)
    ensures
        r@ == suggestions_url(search_query@),
{
    let mut url = "https://api.openrussian.org/suggestions?q=".to_owned();
    url.append(search_query);
    url.append("&dummy=1654996242200&lang=en");
    url
}

/// Builds the address of an entry's page.
pub fn make_entry_url(search_result: &str) -> (r: String)
    ensures
        r@ == entry_url(search_result@),
{
    let mut url = "https://en.openrussian.org/ru/".to_owned();
    url.append(search_result);
    url
}

/// Takes a lookup one step further: from where it stands and what happened
/// outside to where it stands next and what is to be done. The caller makes
/// the requests and adds a found record to the store.
pub fn get_translation_info(
    store: &Store,
    search_query: &str,
    supplied_context: &Option<String>,
    state: LookupState,
    event: LookupEvent,
) -> (r: (LookupState, LookupAction))
    ensures
        (r.0@, r.1@) == step_of(
            store@,
            search_query@,
            opt_view(*supplied_context),
            state@,
            event@,
        ),
{
    match (state, event) {
        (LookupState::Start, LookupEvent::Begin) => {
            if search_query.is_empty() {
                return (LookupState::Finished, LookupAction::Fail(LookupError::EmptyQuery));
            }
            match get_cached_translation_info_for_query(store, search_query) {
                Ok(Some(info)) => (LookupState::Finished, LookupAction::Found(info, true)),
                _ => (
                    LookupState::AwaitingSuggestions,
                    LookupAction::Fetch(make_suggestions_url(search_query)),
                ),
            }
        },
        (LookupState::AwaitingSuggestions, LookupEvent::Response(text)) => {
            match get_search_result(text.as_str()) {
                Ok(entry) => {
                    let url = make_entry_url(entry.as_str());
                    (LookupState::AwaitingPage { search_result: entry }, LookupAction::Fetch(url))
                },
                Err(e) => (LookupState::Finished, LookupAction::Fail(e)),
            }
        },
        (LookupState::AwaitingSuggestions, LookupEvent::TransportFailed) => (
            LookupState::Finished,
            LookupAction::Fail(LookupError::Network),
        ),
        (LookupState::AwaitingPage { search_result }, LookupEvent::Response(page)) => {
            match record_from_page(
                search_query,
                search_result.as_str(),
                supplied_context,
                page.as_str(),
            ) {
                Ok(info) => (LookupState::Finished, LookupAction::Found(info, false)),
                Err(e) => (LookupState::Finished, LookupAction::Fail(e)),
            }
        },
        (LookupState::AwaitingPage { search_result }, LookupEvent::TransportFailed) => (
            LookupState::Finished,
            LookupAction::Fail(LookupError::Network),
        ),
        _ => (LookupState::Finished, LookupAction::Fail(LookupError::Unexpected)),
    }
}

/// How many requests a lookup in this state may still make.
pub open spec fn requests_left(state: StateView) -> nat {
    match state {
        StateView::Start => 2,
        StateView::AwaitingSuggestions => 1,
        StateView::AwaitingPage(_) => 0,
        StateView::Finished => 0,
    }
}

/// A lookup makes at most two requests, the second only after the first:
/// each step that asks for a request leaves one fewer to make, and each
/// step that asks for none ends the lookup.
pub proof fn lemma_lookup_asks_at_most_twice(
    store: StoreView,
    query: Seq<char>,
    supplied: Option<Seq<char>>,
    state: StateView,
    event: EventView,
)
    ensures
        step_of(store, query, supplied, state, event).1 is Fetch ==> requests_left(state) > 0
            && requests_left(step_of(store, query, supplied, state, event).0) == requests_left(
            state,
        ) - 1,
        !(step_of(store, query, supplied, state, event).1 is Fetch) ==> step_of(
            store,
            query,
            supplied,
            state,
            event,
        ).0 == StateView::Finished,
{
}

/// A row added at the end is the first answer to a query exactly where no
/// earlier row answers it.
pub proof fn lemma_first_answer_push(
    rows: Seq<Seq<Seq<char>>>,
    row: Seq<Seq<char>>,
    query: Seq<char>,
)
    ensures
        first_answer(rows, query) is Some ==> first_answer(rows.push(row), query) == first_answer(
            rows,
            query,
        ),
        first_answer(rows, query) is None && answers(row, query) ==> first_answer(
            rows.push(row),
            query,
        ) == Some(row),
    decreases rows.len(),
{
    if rows.len() == 0 {
        assert(rows.push(row).skip(1) =~= Seq::<Seq<Seq<char>>>::empty());
    } else {
        assert(rows.push(row).skip(1) =~= rows.skip(1).push(row));
        assert(rows.push(row)[0] == rows[0]);
        lemma_first_answer_push(rows.skip(1), row, query);
    }
}

/// Once a record has been added for a query, the next lookup of that query
/// ends at its first step with a stored record and asks for nothing.
///
/// This holds unless the store's first record of the query is too short to
/// be read; and, where the store has no record of the query before, unless
/// the store is damaged or holds a record of another query that equals the
/// new one as one text, so that nothing is added.
pub proof fn lemma_second_lookup_is_served_from_store(
    store: StoreView,
    v: InfoView,
    supplied: Option<Seq<char>>,
)
    requires
        v.search_query.len() > 0,
        first_answer(store.rows, v.search_query) matches Some(row) ==> row.len() >= 7,
        first_answer(store.rows, v.search_query) is None ==> !store.damaged && count_flat(
            store.rows,
            flattened(v),
        ) == 0,
    ensures
        step_of(
            appended(store, v),
            v.search_query,
            supplied,
            StateView::Start,
            EventView::Begin,
        ).0 == StateView::Finished,
        step_of(
            appended(store, v),
            v.search_query,
            supplied,
            StateView::Start,
            EventView::Begin,
        ).1 matches ActionView::Found(_, cached) && cached,
        lookup_of(appended(store, v), v.search_query) is Ok,
        first_answer(store.rows, v.search_query) is None ==> lookup_of(
            appended(store, v),
            v.search_query,
        ) == Ok::<Option<InfoView>, crate::record::StoreError>(
            Some(parsed_fields(record_fields(v))),
        ),
{
    lemma_first_answer_push(store.rows, record_fields(v), v.search_query);
    assert(answers(record_fields(v), v.search_query));
}

} // verus!
