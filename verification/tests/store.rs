use htmx_todo::state::AppState;
use htmx_todo::todo::Todo;

fn ids(todos: &[Todo]) -> Vec<u128> {
    let mut out = Vec::new();
    for todo in todos {
        out.push(todo.id);
    }
    out
}

#[test]
fn new_store_is_empty() {
    let state = AppState::new();
    assert!(state.snapshot().is_empty());
    assert_eq!(state.summary(), (0, 0));
}

#[test]
fn create_returns_the_new_item() {
    let mut state = AppState::new();
    let todo = state.create(String::from("Buy milk"));
    assert_eq!(todo.id, 0);
    assert_eq!(todo.name, "Buy milk");
    assert!(!todo.done);
    let todos = state.snapshot();
    assert_eq!(todos.len(), 1);
    assert_eq!(todos[0].id, 0);
    assert_eq!(todos[0].name, "Buy milk");
    assert!(!todos[0].done);
}

#[test]
fn creates_assign_consecutive_ids() {
    let mut state = AppState::new();
    let mut returned = Vec::new();
    for i in 0..25 {
        returned.push(state.create(format!("item {}", i)).id);
    }
    let expected: Vec<u128> = (0..25).collect();
    assert_eq!(returned, expected);
    assert_eq!(ids(&state.snapshot()), expected);
}

#[test]
fn create_keeps_insertion_order_and_text() {
    let mut state = AppState::new();
    state.create(String::from("a"));
    state.create(String::from("b"));
    state.create(String::from("c"));
    let todos = state.snapshot();
    assert_eq!(todos[0].name, "a");
    assert_eq!(todos[1].name, "b");
    assert_eq!(todos[2].name, "c");
}

#[test]
fn create_accepts_empty_and_blank_text() {
    let mut state = AppState::new();
    let empty = state.create(String::new());
    let blank = state.create(String::from("   "));
    assert_eq!(empty.id, 0);
    assert_eq!(empty.name, "");
    assert_eq!(blank.id, 1);
    assert_eq!(blank.name, "   ");
    assert_eq!(state.summary(), (0, 2));
}

#[test]
fn toggle_flips_and_returns_the_item() {
    let mut state = AppState::new();
    state.create(String::from("a"));
    state.create(String::from("b"));
    let toggled = state.toggle(1).expect("item 1 exists");
    assert_eq!(toggled.id, 1);
    assert_eq!(toggled.name, "b");
    assert!(toggled.done);
    let todos = state.snapshot();
    assert!(!todos[0].done);
    assert!(todos[1].done);
}

#[test]
fn toggle_twice_restores_the_flag() {
    let mut state = AppState::new();
    state.create(String::from("a"));
    state.create(String::from("b"));
    state.toggle(0);
    let once = state.toggle(1).expect("item 1 exists");
    let twice = state.toggle(1).expect("item 1 exists");
    assert!(once.done);
    assert!(!twice.done);
    let todos = state.snapshot();
    assert!(todos[0].done);
    assert!(!todos[1].done);
    assert_eq!(ids(&todos), vec![0, 1]);
}

#[test]
fn toggle_unknown_id_changes_nothing() {
    let mut state = AppState::new();
    state.create(String::from("a"));
    state.toggle(0);
    let before = format!("{:?}", state.snapshot());
    assert!(state.toggle(1).is_none());
    assert!(state.toggle(999).is_none());
    assert!(state.toggle(u128::MAX).is_none());
    assert_eq!(format!("{:?}", state.snapshot()), before);
    assert_eq!(state.summary(), (1, 1));
}

#[test]
fn toggle_on_empty_store_finds_nothing() {
    let mut state = AppState::new();
    assert!(state.toggle(0).is_none());
    assert!(state.snapshot().is_empty());
}

#[test]
fn toggle_does_not_consume_an_id() {
    let mut state = AppState::new();
    state.create(String::from("a"));
    state.toggle(0);
    state.toggle(7);
    assert_eq!(state.create(String::from("b")).id, 1);
}

#[test]
fn summary_counts_completed_and_total() {
    let mut state = AppState::new();
    for i in 0..5 {
        state.create(format!("item {}", i));
    }
    assert_eq!(state.summary(), (0, 5));
    state.toggle(1);
    state.toggle(3);
    assert_eq!(state.summary(), (2, 5));
    state.toggle(3);
    assert_eq!(state.summary(), (1, 5));
    let (completed, total) = state.summary();
    assert!(completed <= total);
    assert_eq!(total, state.snapshot().len());
}

#[test]
fn snapshot_is_a_copy() {
    let mut state = AppState::new();
    state.create(String::from("a"));
    let mut copy = state.snapshot();
    copy[0].done = true;
    copy[0].name.push_str(" changed");
    let again = state.snapshot();
    assert!(!again[0].done);
    assert_eq!(again[0].name, "a");
}

#[test]
fn clone_keeps_every_field() {
    let todo = Todo { id: 12, name: String::from("x"), done: true };
    let copy = todo.clone();
    assert_eq!(copy.id, 12);
    assert_eq!(copy.name, "x");
    assert!(copy.done);
}
