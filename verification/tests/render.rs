use htmx_todo::render::{render_list, render_page, render_summary};
use htmx_todo::todo::Todo;

fn todo(id: u128, name: &str, done: bool) -> Todo {
    Todo { id, name: String::from(name), done }
}

const MILK_OPEN: &str = "<li id=\"todo-0\" class=\"flex flex-row\"><div class=\"flex-1\">Buy milk</div><input type=\"checkbox\" hx-post=\"/0/done\" hx-trigger=\"click\" hx-target=\"#todo-0\" hx-swap=\"outerHTML\"></li>";
const MILK_DONE: &str = "<li id=\"todo-0\" class=\"flex flex-row\"><div class=\"flex-1 line-through\">Buy milk</div><input type=\"checkbox\" checked hx-post=\"/0/done\" hx-trigger=\"click\" hx-target=\"#todo-0\" hx-swap=\"outerHTML\"></li>";

#[test]
fn render_item_that_is_not_done() {
    assert_eq!(todo(0, "Buy milk", false).render(), MILK_OPEN);
}

#[test]
fn render_item_that_is_done() {
    assert_eq!(todo(0, "Buy milk", true).render(), MILK_DONE);
}

#[test]
fn render_strikes_through_only_when_done() {
    assert!(!todo(3, "x", false).render().contains("line-through"));
    assert!(!todo(3, "x", false).render().contains(" checked"));
    assert!(todo(3, "x", true).render().contains("line-through"));
    assert!(todo(3, "x", true).render().contains(" checked"));
}

#[test]
fn render_derives_ids_and_path_from_the_identifier() {
    let markup = todo(1234, "x", false).render();
    assert!(markup.starts_with("<li id=\"todo-1234\" "));
    assert!(markup.contains(" hx-post=\"/1234/done\" "));
    assert!(markup.contains(" hx-target=\"#todo-1234\" "));
}

#[test]
fn render_escapes_the_text() {
    let markup = todo(2, "<b>\"Tom\" & 'Jerry'</b>", false).render();
    assert_eq!(
        markup,
        "<li id=\"todo-2\" class=\"flex flex-row\"><div class=\"flex-1\">&lt;b&gt;&quot;Tom&quot; &amp; 'Jerry'&lt;/b&gt;</div><input type=\"checkbox\" hx-post=\"/2/done\" hx-trigger=\"click\" hx-target=\"#todo-2\" hx-swap=\"outerHTML\"></li>"
    );
}

#[test]
fn render_keeps_other_characters() {
    let markup = todo(0, "caf\u{e9} \u{1f95b} a=b;c", false).render();
    assert!(markup.contains("<div class=\"flex-1\">caf\u{e9} \u{1f95b} a=b;c</div>"));
}

#[test]
fn render_of_empty_text() {
    let markup = todo(0, "", false).render();
    assert!(markup.contains("<div class=\"flex-1\"></div>"));
}

#[test]
fn render_is_deterministic() {
    let a = todo(7, "same & same", true);
    let b = todo(7, "same & same", true);
    assert_eq!(a.render(), a.render());
    assert_eq!(a.render(), b.render());
}

#[test]
fn render_list_of_nothing_is_empty() {
    assert_eq!(render_list(&[]), "");
}

#[test]
fn render_list_concatenates_in_order() {
    let todos = vec![todo(0, "a", false), todo(1, "b", true), todo(2, "c", false)];
    let expected = format!("{}{}{}", todos[0].render(), todos[1].render(), todos[2].render());
    assert_eq!(render_list(&todos), expected);
    assert_eq!(render_list(&todos[..1]), todos[0].render());
}

#[test]
fn render_list_grows_by_the_new_fragment() {
    let mut todos = vec![todo(0, "a", false), todo(1, "b", true)];
    let before = render_list(&todos);
    let added = todo(2, "c", false);
    let fragment = added.render();
    todos.push(added);
    assert_eq!(render_list(&todos), format!("{}{}", before, fragment));
}

#[test]
fn render_summary_exact() {
    assert_eq!(render_summary(0, 0), "<span>Completed 0 of 0 todos</span>");
    assert_eq!(render_summary(1, 1), "<span>Completed 1 of 1 todos</span>");
    assert_eq!(render_summary(3, 12), "<span>Completed 3 of 12 todos</span>");
}

#[test]
fn render_page_of_empty_store() {
    assert_eq!(
        render_page(&[], 0, 0),
        "<!DOCTYPE html><script src=\"/assets/tailwind.min.js\"></script><script src=\"/assets/htmx.min.js\"></script><link rel=\"icon\" type=\"image/png\" href=\"/assets/favicon.png\"><link src=\"/assets/global.css\" rel=\"stylesheet\"></link><title>Todo</title><body class=\"min-h-sreen text-white bg-black p-4\"><main class=\"container m-auto flex flex-col gap-4\"><h1 class=\"text-2xl\">Daily todos</h1><form class=\"flex flex-row gap-4\" hx-post=\"/add\" hx-target=\"#todo-list\" hx-swap=\"beforeend\"><input name=\"prompt\" class=\"flex-1 border rounded border-neutral-400 text-sm px-4 py-2 bg-black\"></input><button class=\"rounded bg-blue-500 px-4 py-2\">Add</button></form><div class=\"text-neutral-400\" hx-get=\"/statistic\" hx-trigger=\"changedTodos from:body\">Completed 0 of 0 todos</div><ul id=\"todo-list\"></ul></main></body>"
    );
}

#[test]
fn render_page_holds_summary_and_list() {
    let todos = vec![todo(0, "Buy milk", true), todo(1, "a < b", false)];
    let page = render_page(&todos, 1, 2);
    assert!(page.starts_with("<!DOCTYPE html>"));
    assert!(page.contains("hx-trigger=\"changedTodos from:body\">Completed 1 of 2 todos</div>"));
    let list = format!("<ul id=\"todo-list\">{}</ul></main></body>", render_list(&todos));
    assert!(page.ends_with(&list));
    assert!(page.contains(MILK_DONE));
    assert!(page.contains("a &lt; b"));
}
