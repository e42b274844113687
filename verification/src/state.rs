//! The store: the ordered items and the identifier counter.
//!
//! A process holds one `AppState` behind a lock. Every method here is one
//! transition of [`StateView`], so callers that take the lock for the length
//! of one call observe a linear history of states.

use vstd::prelude::*;

use crate::model::{
    lemma_create_wf, lemma_first_match_unique, lemma_toggle_wf, lemma_wf_position, StateView,
};
use crate::todo::{views, Todo, TodoView};

verus! {

/// The items in creation order, and the identifier for the next one.
pub struct AppState {
    todos: Vec<Todo>,
    last_index: u128,
}

impl View for AppState {
    type V = StateView;

    closed spec fn view(&self) -> StateView {
        StateView { todos: views(self.todos@), next_id: self.last_index as nat }
    }
}

impl AppState {
    /// Every store satisfies the state invariant, at every moment. The
    /// methods below say so in their contracts, where callers can use it.
    #[verifier::type_invariant]
    closed spec fn valid(&self) -> bool {
        self@.wf()
    }

    /// The empty store.
    pub fn new() -> (state: AppState)
        ensures
            state@ == StateView::empty(),
            state@.wf(),
    {
        let state = AppState { todos: Vec::new(), last_index: 0 };
        assert(state@.todos =~= Seq::<TodoView>::empty());
        state
    }

    /// Appends a new, not yet completed item with text `name`, gives it the
    /// next identifier, and returns a copy of it. Every text is accepted.
    pub fn create(&mut self, name: String) -> (todo: Todo)
        ensures
            old(self)@.wf(),
            final(self)@.wf(),
            final(self)@ == old(self)@.create(name@),
            todo@ == TodoView::fresh(old(self)@.next_id, name@),
    {
        proof {
            use_type_invariant(&*self);
            lemma_create_wf(self@, name@);
        }
        // The invariant holds of every whole store, so the fields are taken
        // out, changed, and put back together.
        let mut taken = AppState::new();
        std::mem::swap(self, &mut taken);
        let AppState { mut todos, last_index } = taken;
        // The counter equals the number of items, which a `usize` holds, so
        // the next identifier fits.
        assert(last_index == todos.len());
        let todo = Todo { id: last_index, name, done: false };
        let copy = todo.clone();
        todos.push(todo);
        assert(views(todos@) =~= old(self)@.create(name@).todos);
        *self = AppState { todos, last_index: last_index + 1 };
        copy
    }

    /// Inverts the completion flag of the first item whose identifier is `id`
    /// and returns a copy of the updated item; returns `None`, and changes
    /// nothing, when no item has that identifier.
    ///
    /// Identifiers are positions, so an item is found exactly when `id` is
    /// less than the number of items, and it is the only one with that
    /// identifier.
    #[verifier::loop_isolation(false)]
    pub fn toggle(&mut self, id: u128) -> (found: Option<Todo>)
        ensures
            old(self)@.wf(),
            final(self)@.wf(),
            final(self)@ == old(self)@.toggle(id as nat),
            found is Some <==> old(self)@.contains_id(id as nat),
            found is Some <==> id < old(self)@.todos.len(),
            found is None ==> final(self)@ == old(self)@,
            found matches Some(todo) ==> todo@ == old(self)@.todos[old(self)@.position_of(
                id as nat,
            )].flipped(),
    {
        proof {
            use_type_invariant(&*self);
            lemma_toggle_wf(self@, id as nat);
            lemma_wf_position(self@, id as nat);
        }
        let mut i: usize = 0;
        while i < self.todos.len()
            invariant
                i <= self.todos.len(),
                *self == *old(self),
                forall|k: int| 0 <= k < i ==> (#[trigger] self@.todos[k]).id != id,
            decreases self.todos.len() - i,
        {
            if self.todos[i].id == id {
                proof {
                    lemma_first_match_unique(
                        old(self)@,
                        id as nat,
                        i as int,
                        old(self)@.position_of(id as nat),
                    );
                }
                let mut taken = AppState::new();
                std::mem::swap(self, &mut taken);
                let AppState { mut todos, last_index } = taken;
                let item = &mut todos[i];
                item.done = !item.done;
                let copy = todos[i].clone();
                assert(views(todos@) =~= old(self)@.toggle(id as nat).todos);
                *self = AppState { todos, last_index };
                return Some(copy);
            }
            i = i + 1;
        }
        assert(!old(self)@.contains_id(id as nat)) by {
            if old(self)@.contains_id(id as nat) {
                let j = old(self)@.position_of(id as nat);
            }
        }
        None
    }

    /// A copy of the items, in order.
    pub fn snapshot(&self) -> (todos: Vec<Todo>)
        ensures
            self@.wf(),
            views(todos@) == self@.todos,
    {
        proof {
            use_type_invariant(self);
        }
        let todos = self.todos.clone();
        todos
    }

    /// The number of completed items and the number of all items.
    pub fn summary(&self) -> (counts: (usize, usize))
        ensures
            self@.wf(),
            counts.0 == self@.done_count(),
            counts.1 == self@.todos.len(),
            counts.0 <= counts.1,
    {
        proof {
            use_type_invariant(self);
        }
        let total: usize = self.todos.len();
        let mut completed: usize = 0;
        let mut i: usize = 0;
        while i < total
            invariant
                i <= total,
                total == self.todos.len(),
                completed <= i,
                completed == self@.todos.take(i as int).filter(|t: TodoView| t.done).len(),
            decreases total - i,
        {
            proof {
                let done = |t: TodoView| t.done;
                let next = self@.todos.take(i + 1);
                assert(next.drop_last() =~= self@.todos.take(i as int));
                reveal(Seq::filter);
                assert(next.filter(done) == if done(next.last()) {
                    next.drop_last().filter(done).push(next.last())
                } else {
                    next.drop_last().filter(done)
                });
            }
            if self.todos[i].done {
                completed = completed + 1;
            }
            i = i + 1;
        }
        assert(self@.todos.take(total as int) =~= self@.todos);
        (completed, total)
    }
}

} // verus!
