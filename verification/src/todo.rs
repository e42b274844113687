//! The to-do entity: one row of the list.

use vstd::prelude::*;

verus! {

/// One to-do item.
///
/// The store assigns `id` when the item is created and never changes it, and
/// `name` is the text the client supplied. Only `done` changes afterwards.
#[derive(Debug)]
pub struct Todo {
    pub id: u128,
    pub name: String,
    pub done: bool,
}

/// The mathematical value of a [`Todo`].
pub struct TodoView {
    pub id: nat,
    pub name: Seq<char>,
    pub done: bool,
}

impl TodoView {
    /// The item as it is right after creation: not done.
    pub open spec fn fresh(id: nat, name: Seq<char>) -> TodoView {
        TodoView { id, name, done: false }
    }

    /// The same item with its completion flag inverted.
    pub open spec fn flipped(self) -> TodoView {
        TodoView { id: self.id, name: self.name, done: !self.done }
    }
}

impl View for Todo {
    type V = TodoView;

    open spec fn view(&self) -> TodoView {
        TodoView { id: self.id as nat, name: self.name@, done: self.done }
    }
}

impl Clone for Todo {
    fn clone(&self) -> (copy: Self)
        ensures
            copy == *self,
    {
        Todo { id: self.id, name: self.name.clone(), done: self.done }
    }
}

/// The values of a sequence of items, in the same order.
pub open spec fn views(todos: Seq<Todo>) -> Seq<TodoView> {
    todos.map_values(|t: Todo| t@)
}

} // verus!
