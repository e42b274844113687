//! The markup that each value stands for, as sequences of characters.
//!
//! Everything here is a pure function of its arguments, so equal values
//! always give identical markup. Element ids and request paths are derived
//! from an item's identifier alone.

use vstd::prelude::*;

use crate::decimal::{decimal_text, is_digit, lemma_decimal_text_value};
use crate::todo::TodoView;

verus! {

/// The event that a response announces after a change of the store, and that
/// the summary element of the page listens for.
pub const CHANGED_EVENT: &'static str = "changedTodos";

/// The response header that carries [`CHANGED_EVENT`].
pub const TRIGGER_HEADER: &'static str = "HX-Trigger";

/// What one character of text becomes inside markup: the four characters
/// `&`, `<`, `>` and `"` become entities, every other character stays.
pub open spec fn escaped_char(c: char) -> Seq<char> {
    if c == '&' {
        "&amp;"@
    } else if c == '<' {
        "&lt;"@
    } else if c == '>' {
        "&gt;"@
    } else if c == '"' {
        "&quot;"@
    } else {
        seq![c]
    }
}

/// Text as it appears inside markup: each character replaced by
/// [`escaped_char`], in order.
pub open spec fn escaped(text: Seq<char>) -> Seq<char>
    decreases text.len(),
{
    if text.len() == 0 {
        Seq::empty()
    } else {
        escaped(text.drop_last()) + escaped_char(text.last())
    }
}

/// The element id of the item with identifier `id`: `todo-` and the
/// identifier in decimal.
pub open spec fn element_id(id: nat) -> Seq<char> {
    "todo-"@ + decimal_text(id)
}

/// The path that toggles the item with identifier `id`.
pub open spec fn toggle_path(id: nat) -> Seq<char> {
    "/"@ + decimal_text(id) + "/done"@
}

/// The classes of an item's label: struck through exactly when it is done.
pub open spec fn label_classes(done: bool) -> Seq<char> {
    if done {
        "flex-1 line-through"@
    } else {
        "flex-1"@
    }
}

/// The `checked` attribute of an item's checkbox: present exactly when the
/// item is done.
pub open spec fn checked_attr(done: bool) -> Seq<char> {
    if done {
        " checked"@
    } else {
        Seq::empty()
    }
}

/// The list-item fragment of one item.
///
/// The `li` carries the item's element id. The label shows the escaped text.
/// A click on the checkbox posts to the item's toggle path and swaps the
/// whole `li` for the response.
pub open spec fn todo_markup(todo: TodoView) -> Seq<char> {
    "<li id=\""@ + element_id(todo.id) + "\" class=\"flex flex-row\"><div class=\""@
        + label_classes(todo.done) + "\">"@ + escaped(todo.name)
        + "</div><input type=\"checkbox\""@ + checked_attr(todo.done) + " hx-post=\""@
        + toggle_path(todo.id) + "\" hx-trigger=\"click\" hx-target=\"#"@ + element_id(todo.id)
        + "\" hx-swap=\"outerHTML\"></li>"@
}

/// The fragments of the items one after another, in order, with nothing in
/// between.
pub open spec fn list_markup(todos: Seq<TodoView>) -> Seq<char>
    decreases todos.len(),
{
    if todos.len() == 0 {
        Seq::empty()
    } else {
        list_markup(todos.drop_last()) + todo_markup(todos.last())
    }
}

/// The summary sentence for `completed` done items out of `total`.
pub open spec fn summary_text(completed: nat, total: nat) -> Seq<char> {
    "Completed "@ + decimal_text(completed) + " of "@ + decimal_text(total) + " todos"@
}

/// The summary fragment: the sentence in a `span`.
pub open spec fn summary_markup(completed: nat, total: nat) -> Seq<char> {
    "<span>"@ + summary_text(completed, total) + "</span>"@
}

/// The head of the page: scripts, icon, stylesheet and title.
pub open spec fn page_head() -> Seq<char> {
    "<script src=\"/assets/tailwind.min.js\"></script><script src=\"/assets/htmx.min.js\"></script><link rel=\"icon\" type=\"image/png\" href=\"/assets/favicon.png\"><link src=\"/assets/global.css\" rel=\"stylesheet\"></link><title>Todo</title>"@
}

/// The form that creates an item: it posts the field `prompt` to `/add` and
/// appends the response to the list element.
pub open spec fn creation_form() -> Seq<char> {
    "<form class=\"flex flex-row gap-4\" hx-post=\"/add\" hx-target=\"#todo-list\" hx-swap=\"beforeend\"><input name=\"prompt\" class=\"flex-1 border rounded border-neutral-400 text-sm px-4 py-2 bg-black\"></input><button class=\"rounded bg-blue-500 px-4 py-2\">Add</button></form>"@
}

/// The summary element of the page. It fetches `/statistic` again whenever
/// the body sees [`CHANGED_EVENT`].
pub open spec fn summary_element(completed: nat, total: nat) -> Seq<char> {
    "<div class=\"text-neutral-400\" hx-get=\"/statistic\" hx-trigger=\""@ + CHANGED_EVENT@
        + " from:body\">"@ + summary_text(completed, total) + "</div>"@
}

/// The list element of the page, holding the fragments of the items.
pub open spec fn list_element(todos: Seq<TodoView>) -> Seq<char> {
    "<ul id=\"todo-list\">"@ + list_markup(todos) + "</ul>"@
}

/// The whole page.
pub open spec fn page_markup(todos: Seq<TodoView>, completed: nat, total: nat) -> Seq<char> {
    "<!DOCTYPE html>"@ + page_head()
        + "<body class=\"min-h-sreen text-white bg-black p-4\"><main class=\"container m-auto flex flex-col gap-4\"><h1 class=\"text-2xl\">Daily todos</h1>"@
        + creation_form() + summary_element(completed, total) + list_element(todos)
        + "</main></body>"@
}

/// Whether `c` is one of the four characters that escaping replaces.
pub open spec fn is_special(c: char) -> bool {
    c == '&' || c == '<' || c == '>' || c == '"'
}

/// Escaping works character by character: the escaped form of two texts
/// joined is the two escaped forms joined.
pub proof fn lemma_escaped_concat(a: Seq<char>, b: Seq<char>)
    ensures
        escaped(a + b) == escaped(a) + escaped(b),
    decreases b.len(),
{
    if b.len() > 0 {
        lemma_escaped_concat(a, b.drop_last());
        assert((a + b).drop_last() =~= a + b.drop_last());
    }
}

/// Escaped text holds no `<`, no `>` and no `"`: whatever a client sends as
/// text, it cannot open or close an element, nor end an attribute value.
pub proof fn lemma_escaped_has_no_delimiters(text: Seq<char>)
    ensures
        forall|i: int|
            0 <= i < escaped(text).len() ==> {
                let c = #[trigger] escaped(text)[i];
                c != '<' && c != '>' && c != '"'
            },
    decreases text.len(),
{
    reveal_strlit("&amp;");
    reveal_strlit("&lt;");
    reveal_strlit("&gt;");
    reveal_strlit("&quot;");
    if text.len() > 0 {
        lemma_escaped_has_no_delimiters(text.drop_last());
        let head = escaped(text.drop_last());
        let tail = escaped_char(text.last());
        assert forall|i: int| 0 <= i < escaped(text).len() implies {
            let c = #[trigger] escaped(text)[i];
            c != '<' && c != '>' && c != '"'
        } by {
            if i < head.len() {
                assert(escaped(text)[i] == head[i]);
            } else {
                assert(escaped(text)[i] == tail[i - head.len()]);
            }
        }
    }
}

/// Text without any of the four special characters is its own escaped form.
pub proof fn lemma_escaped_plain(text: Seq<char>)
    requires
        forall|i: int| 0 <= i < text.len() ==> !is_special(#[trigger] text[i]),
    ensures
        escaped(text) == text,
    decreases text.len(),
{
    if text.len() > 0 {
        lemma_escaped_plain(text.drop_last());
    }
}

/// Element ids and toggle paths need no escaping: they are made of letters,
/// digits, `-` and `/` only.
pub proof fn lemma_ids_are_plain(id: nat)
    ensures
        escaped(decimal_text(id)) == decimal_text(id),
        escaped(element_id(id)) == element_id(id),
        escaped(toggle_path(id)) == toggle_path(id),
{
    lemma_decimal_text_value(id);
    let digits = decimal_text(id);
    assert forall|i: int| 0 <= i < digits.len() implies !is_special(#[trigger] digits[i]) by {
        assert(is_digit(digits[i]));
    }
    lemma_escaped_plain(digits);
    reveal_strlit("todo-");
    reveal_strlit("/");
    reveal_strlit("/done");
    lemma_escaped_plain("todo-"@);
    lemma_escaped_plain("/"@);
    lemma_escaped_plain("/done"@);
    lemma_escaped_concat("todo-"@, digits);
    lemma_escaped_concat("/"@, digits);
    lemma_escaped_concat("/"@ + digits, "/done"@);
}

/// Rendering depends on the value alone: equal items have identical
/// fragments, and equal lists identical markup.
pub proof fn lemma_markup_deterministic(
    a: TodoView,
    b: TodoView,
    xs: Seq<TodoView>,
    ys: Seq<TodoView>,
)
    requires
        a.id == b.id,
        a.name == b.name,
        a.done == b.done,
        xs == ys,
    ensures
        todo_markup(a) == todo_markup(b),
        list_markup(xs) == list_markup(ys),
{
}

/// The markup of two lists joined is the markup of the first followed by the
/// markup of the second.
pub proof fn lemma_list_markup_concat(xs: Seq<TodoView>, ys: Seq<TodoView>)
    ensures
        list_markup(xs + ys) == list_markup(xs) + list_markup(ys),
    decreases ys.len(),
{
    if ys.len() > 0 {
        lemma_list_markup_concat(xs, ys.drop_last());
        assert((xs + ys).drop_last() =~= xs + ys.drop_last());
    }
}

/// Appending the fragment of a new item to the rendered list gives the
/// rendering of the list with that item at its end.
pub proof fn lemma_list_markup_push(todos: Seq<TodoView>, todo: TodoView)
    ensures
        list_markup(todos.push(todo)) == list_markup(todos) + todo_markup(todo),
{
    assert(todos.push(todo).drop_last() =~= todos);
}

/// Replacing the fragment at position `j` of the rendered list by the
/// fragment of `todo` gives the rendering of the list with `todo` at `j`.
pub proof fn lemma_list_markup_update(todos: Seq<TodoView>, j: int, todo: TodoView)
    requires
        0 <= j < todos.len(),
    ensures
        list_markup(todos) == list_markup(todos.take(j)) + todo_markup(todos[j]) + list_markup(
            todos.skip(j + 1),
        ),
        list_markup(todos.update(j, todo)) == list_markup(todos.take(j)) + todo_markup(todo)
            + list_markup(todos.skip(j + 1)),
{
    let head = todos.take(j);
    let tail = todos.skip(j + 1);
    assert(todos =~= head.push(todos[j]) + tail);
    assert(todos.update(j, todo) =~= head.push(todo) + tail);
    lemma_list_markup_concat(head.push(todos[j]), tail);
    lemma_list_markup_concat(head.push(todo), tail);
    lemma_list_markup_push(head, todos[j]);
    lemma_list_markup_push(head, todo);
}

} // verus!
