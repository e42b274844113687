//! The fragment renderer: values in, markup out.
//!
//! Nothing here keeps state or looks at anything but its arguments. Text that
//! came from a client goes through maud's escaping before it reaches the
//! markup.

use vstd::prelude::*;
use vstd::string::StringExecFns;

use crate::decimal::push_decimal;
use crate::markup::{
    element_id, escaped, list_element, list_markup, page_markup, summary_element, summary_markup,
    summary_text, todo_markup, toggle_path, CHANGED_EVENT,
};
use crate::todo::{views, Todo};

verus! {

/// Appends `text` to `out` the way maud renders a string inside markup.
///
/// Trusted: the body is maud's `Render::render_to` for `str`. The contract
/// claims what maud documents for its escaping: `&`, `<`, `>` and `"` are
/// written as `&amp;`, `&lt;`, `&gt;` and `&quot;`, every other character is
/// written unchanged, and what `out` held before stays in front.
#[verifier::external_body]
fn push_escaped(out: &mut String, text: &str)
    ensures
        final(out)@ == old(out)@ + escaped(text@),
{
    maud::Render::render_to(text, out)
}

/// The document type declaration that opens a page.
///
/// Trusted: the body reads maud's constant `DOCTYPE`. The contract claims the
/// text that maud documents for it.
#[verifier::external_body]
fn doctype() -> (text: &'static str)
    ensures
        text@ == "<!DOCTYPE html>"@,
{
    maud::DOCTYPE.0
}

fn push_element_id(out: &mut String, id: u128)
    ensures
        final(out)@ == old(out)@ + element_id(id as nat),
{
    let mut text = String::from_str("todo-");
    push_decimal(&mut text, id);
    out.append(text.as_str());
}

fn push_toggle_path(out: &mut String, id: u128)
    ensures
        final(out)@ == old(out)@ + toggle_path(id as nat),
{
    let mut text = String::from_str("/");
    push_decimal(&mut text, id);
    text.append("/done");
    out.append(text.as_str());
}

fn push_summary_text(out: &mut String, completed: usize, total: usize)
    ensures
        final(out)@ == old(out)@ + summary_text(completed as nat, total as nat),
{
    let mut text = String::from_str("Completed ");
    push_decimal(&mut text, completed as u128);
    text.append(" of ");
    push_decimal(&mut text, total as u128);
    text.append(" todos");
    out.append(text.as_str());
}

impl Todo {
    /// The list-item fragment of this item.
    pub fn render(&self) -> (markup: String)
        ensures
            markup@ == todo_markup(self@),
    {
        let mut out = String::from_str("<li id=\"");
        push_element_id(&mut out, self.id);
        out.append("\" class=\"flex flex-row\"><div class=\"");
        if self.done {
            out.append("flex-1 line-through");
        } else {
            out.append("flex-1");
        }
        out.append("\">");
        push_escaped(&mut out, self.name.as_str());
        out.append("</div><input type=\"checkbox\"");
        if self.done {
            out.append(" checked");
        }
        out.append(" hx-post=\"");
        push_toggle_path(&mut out, self.id);
        out.append("\" hx-trigger=\"click\" hx-target=\"#");
        push_element_id(&mut out, self.id);
        out.append("\" hx-swap=\"outerHTML\"></li>");
        out
    }
}

/// The fragments of `todos` one after another, in order.
pub fn render_list(todos: &[Todo]) -> (markup: String)
    ensures
        markup@ == list_markup(views(todos@)),
{
    let mut out = String::new();
    let mut i: usize = 0;
    while i < todos.len()
        invariant
            i <= todos.len(),
            out@ == list_markup(views(todos@).take(i as int)),
        decreases todos.len() - i,
    {
        let item = todos[i].render();
        proof {
            let next = views(todos@).take(i + 1);
            assert(next.drop_last() =~= views(todos@).take(i as int));
        }
        out.append(item.as_str());
        i = i + 1;
    }
    assert(views(todos@).take(todos.len() as int) =~= views(todos@));
    out
}

/// The summary fragment for `completed` done items out of `total`.
pub fn render_summary(completed: usize, total: usize) -> (markup: String)
    ensures
        markup@ == summary_markup(completed as nat, total as nat),
{
    let mut out = String::from_str("<span>");
    push_summary_text(&mut out, completed, total);
    out.append("</span>");
    out
}

fn push_summary_element(out: &mut String, completed: usize, total: usize)
    ensures
        final(out)@ == old(out)@ + summary_element(completed as nat, total as nat),
{
    let mut text = String::from_str(
        "<div class=\"text-neutral-400\" hx-get=\"/statistic\" hx-trigger=\"",
    );
    text.append(CHANGED_EVENT);
    text.append(" from:body\">");
    push_summary_text(&mut text, completed, total);
    text.append("</div>");
    out.append(text.as_str());
}

fn push_list_element(out: &mut String, todos: &[Todo])
    ensures
        final(out)@ == old(out)@ + list_element(views(todos@)),
{
    let mut text = String::from_str("<ul id=\"todo-list\">");
    let list = render_list(todos);
    text.append(list.as_str());
    text.append("</ul>");
    out.append(text.as_str());
}

/// The whole page: head, creation form, summary element and the list.
pub fn render_page(todos: &[Todo], completed: usize, total: usize) -> (markup: String)
    ensures
        markup@ == page_markup(views(todos@), completed as nat, total as nat),
{
    let mut out = String::from_str(doctype());
    out.append(
        "<script src=\"/assets/tailwind.min.js\"></script><script src=\"/assets/htmx.min.js\"></script><link rel=\"icon\" type=\"image/png\" href=\"/assets/favicon.png\"><link src=\"/assets/global.css\" rel=\"stylesheet\"></link><title>Todo</title>",
    );
    out.append(
        "<body class=\"min-h-sreen text-white bg-black p-4\"><main class=\"container m-auto flex flex-col gap-4\"><h1 class=\"text-2xl\">Daily todos</h1>",
    );
    out.append(
        "<form class=\"flex flex-row gap-4\" hx-post=\"/add\" hx-target=\"#todo-list\" hx-swap=\"beforeend\"><input name=\"prompt\" class=\"flex-1 border rounded border-neutral-400 text-sm px-4 py-2 bg-black\"></input><button class=\"rounded bg-blue-500 px-4 py-2\">Add</button></form>",
    );
    push_summary_element(&mut out, completed, total);
    push_list_element(&mut out, todos);
    out.append("</main></body>");
    out
}

} // verus!
