//! The request handlers: one transition of the store, or one read, and the
//! response that goes back.
//!
//! The caller owns the lock around the store. It hands each handler what the
//! attempt to lock gave: the store, or nothing when the lock is poisoned. A
//! handler never works on a store it was not given.

use vstd::prelude::*;

use crate::decimal::{parse_id, parsed_id};
use crate::error::ApiError;
use crate::markup::{
    lemma_list_markup_push, lemma_list_markup_update, list_markup, page_markup, summary_markup,
    todo_markup, CHANGED_EVENT,
};
use crate::model::StateView;
use crate::render::{render_page, render_summary};
use crate::state::AppState;
use crate::todo::TodoView;

verus! {

/// A successful response: status, the event it announces if any, and body.
#[derive(Debug)]
pub struct Response {
    pub status: u16,
    /// The value of the trigger header; `None` sends no such header.
    pub trigger: Option<&'static str>,
    pub body: String,
}

/// The mathematical value of a [`Response`].
pub struct ResponseView {
    pub status: nat,
    pub trigger: Option<Seq<char>>,
    pub body: Seq<char>,
}

impl ResponseView {
    /// The response to a change of the store: status 200, the fragment of the
    /// changed item, and the event that tells listeners to refresh.
    pub open spec fn changed(fragment: Seq<char>) -> ResponseView {
        ResponseView { status: 200, trigger: Some(CHANGED_EVENT@), body: fragment }
    }

    /// The response when nothing changed: status 204, no event, empty body.
    pub open spec fn no_content() -> ResponseView {
        ResponseView { status: 204, trigger: None, body: Seq::empty() }
    }
}

impl View for Response {
    type V = ResponseView;

    open spec fn view(&self) -> ResponseView {
        ResponseView {
            status: self.status as nat,
            trigger: match self.trigger {
                Some(event) => Some(event@),
                None => None,
            },
            body: self.body@,
        }
    }
}

/// The identifier that a request path asks for, if it names one.
pub open spec fn requested_id(segment: Option<&str>) -> Option<u128> {
    match segment {
        Some(text) => parsed_id(text@),
        None => None,
    }
}

/// What toggling `id` in state `s` answers: the fragment of the updated item
/// with the change event, or an empty 204 when no item has that identifier.
pub open spec fn toggle_response(s: StateView, id: nat) -> ResponseView {
    if s.contains_id(id) {
        ResponseView::changed(todo_markup(s.todos[s.position_of(id)].flipped()))
    } else {
        ResponseView::no_content()
    }
}

/// The list page: the whole document for the current items and counts.
///
/// Fails with [`ApiError::MutexLock`] exactly when no store was given.
pub fn index(access: Option<&AppState>) -> (res: Result<String, ApiError>)
    ensures
        match access {
            Some(state) => res matches Ok(page) && page@ == page_markup(
                state@.todos,
                state@.done_count(),
                state@.todos.len(),
            ),
            None => res matches Err(e) && e == ApiError::MutexLock,
        },
{
    match access {
        Some(state) => {
            let todos = state.snapshot();
            let counts = state.summary();
            Ok(render_page(todos.as_slice(), counts.0, counts.1))
        },
        None => Err(ApiError::MutexLock),
    }
}

/// Creates an item with text `prompt` and answers with its fragment and the
/// change event. Any text is accepted, the empty one too.
///
/// Fails with [`ApiError::MutexLock`] exactly when no store was given.
pub fn add(access: Option<&mut AppState>, prompt: String) -> (res: Result<Response, ApiError>)
    ensures
        match access {
            Some(state) => {
                &&& final(state)@.wf()
                &&& final(state)@ == state@.create(prompt@)
                &&& res matches Ok(response) && response@ == ResponseView::changed(
                    todo_markup(TodoView::fresh(state@.next_id, prompt@)),
                )
            },
            None => res matches Err(e) && e == ApiError::MutexLock,
        },
{
    match access {
        Some(state) => {
            let todo = state.create(prompt);
            Ok(Response { status: 200, trigger: Some(CHANGED_EVENT), body: todo.render() })
        },
        None => Err(ApiError::MutexLock),
    }
}

/// Toggles the item that the path segment names.
///
/// Fails with [`ApiError::MutexLock`] exactly when no store was given.
/// Otherwise fails with [`ApiError::PathVariable`], and leaves the store as it
/// is, exactly when the segment is missing or names no identifier. Otherwise
/// answers with the updated item's fragment and the change event, or with an
/// empty 204 and an unchanged store when no item has that identifier.
pub fn toggle_done(access: Option<&mut AppState>, segment: Option<&str>) -> (res: Result<
    Response,
    ApiError,
>)
    ensures
        match access {
            Some(state) => match requested_id(segment) {
                Some(id) => {
                    &&& final(state)@.wf()
                    &&& final(state)@ == state@.toggle(id as nat)
                    &&& res matches Ok(response) && response@ == toggle_response(
                        state@,
                        id as nat,
                    )
                },
                None => {
                    &&& final(state)@ == state@
                    &&& res matches Err(e) && e == ApiError::PathVariable
                },
            },
            None => res matches Err(e) && e == ApiError::MutexLock,
        },
{
    match access {
        Some(state) => {
            let id = match segment {
                Some(text) => parse_id(text),
                None => None,
            };
            match id {
                Some(id) => match state.toggle(id) {
                    Some(todo) => Ok(
                        Response { status: 200, trigger: Some(CHANGED_EVENT), body: todo.render() },
                    ),
                    None => Ok(Response { status: 204, trigger: None, body: String::new() }),
                },
                None => Err(ApiError::PathVariable),
            }
        },
        None => Err(ApiError::MutexLock),
    }
}

/// The summary fragment for the current counts.
///
/// Fails with [`ApiError::MutexLock`] exactly when no store was given.
pub fn render_stats(access: Option<&AppState>) -> (res: Result<String, ApiError>)
    ensures
        match access {
            Some(state) => res matches Ok(fragment) && fragment@ == summary_markup(
                state@.done_count(),
                state@.todos.len(),
            ),
            None => res matches Err(e) && e == ApiError::MutexLock,
        },
{
    match access {
        Some(state) => {
            let counts = state.summary();
            Ok(render_summary(counts.0, counts.1))
        },
        None => Err(ApiError::MutexLock),
    }
}

/// A client that appends the body of each creation response to the list it
/// shows has the list that the page would show after that creation.
pub proof fn lemma_created_fragment_extends_list(s: StateView, name: Seq<char>)
    ensures
        list_markup(s.create(name).todos) == list_markup(s.todos) + ResponseView::changed(
            todo_markup(TodoView::fresh(s.next_id, name)),
        ).body,
{
    lemma_list_markup_push(s.todos, TodoView::fresh(s.next_id, name));
}

/// A client that swaps the fragment of the toggled item for the body of the
/// toggle response has the list that the page would show after that toggle.
pub proof fn lemma_toggled_fragment_replaces_item(s: StateView, id: nat)
    requires
        s.contains_id(id),
    ensures
        list_markup(s.toggle(id).todos) == list_markup(s.todos.take(s.position_of(id)))
            + toggle_response(s, id).body + list_markup(s.todos.skip(s.position_of(id) + 1)),
{
    let j = s.position_of(id);
    lemma_list_markup_update(s.todos, j, s.todos[j].flipped());
}

} // verus!
