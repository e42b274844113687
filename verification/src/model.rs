//! The abstract state of the store and its transitions.
//!
//! [`StateView`] is what the executable store stands for: the ordered items
//! and the next identifier to hand out. The transitions are total functions
//! on it, and the laws at the end of this file are proved of them.

use vstd::prelude::*;

use crate::todo::TodoView;

verus! {

/// The abstract value of the store.
pub struct StateView {
    /// The items in creation order.
    pub todos: Seq<TodoView>,
    /// The identifier that the next created item receives.
    pub next_id: nat,
}

impl StateView {
    /// The store at process start: no items, and identifiers start at zero.
    pub open spec fn empty() -> StateView {
        StateView { todos: Seq::empty(), next_id: 0 }
    }

    /// The state invariant: the item at position `i` carries identifier `i`,
    /// and the next identifier is the number of items. It follows that
    /// identifiers are unique and strictly increasing in creation order.
    pub open spec fn wf(self) -> bool {
        &&& self.next_id == self.todos.len()
        &&& forall|i: int| 0 <= i < self.todos.len() ==> (#[trigger] self.todos[i]).id == i
    }

    /// The state after creating an item with text `name`.
    pub open spec fn create(self, name: Seq<char>) -> StateView {
        StateView {
            todos: self.todos.push(TodoView::fresh(self.next_id, name)),
            next_id: self.next_id + 1,
        }
    }

    /// Whether position `j` holds the first item whose identifier is `id`.
    pub open spec fn first_match(self, id: nat, j: int) -> bool {
        &&& 0 <= j < self.todos.len()
        &&& self.todos[j].id == id
        &&& forall|k: int| 0 <= k < j ==> (#[trigger] self.todos[k]).id != id
    }

    /// Whether some item carries identifier `id`.
    pub open spec fn contains_id(self, id: nat) -> bool {
        exists|j: int| self.first_match(id, j)
    }

    /// The position of the first item with identifier `id`; meaningful only
    /// when [`Self::contains_id`] holds.
    pub open spec fn position_of(self, id: nat) -> int {
        choose|j: int| self.first_match(id, j)
    }

    /// The state after toggling `id`: the first item with that identifier has
    /// its flag inverted; without such an item the state is unchanged.
    pub open spec fn toggle(self, id: nat) -> StateView {
        if self.contains_id(id) {
            let j = self.position_of(id);
            StateView { todos: self.todos.update(j, self.todos[j].flipped()), next_id: self.next_id }
        } else {
            self
        }
    }

    /// The number of completed items.
    pub open spec fn done_count(self) -> nat {
        self.todos.filter(|t: TodoView| t.done).len()
    }

    /// The state reached from the empty store by creating one item per entry
    /// of `names`, in order.
    pub open spec fn after_creates(names: Seq<Seq<char>>) -> StateView
        decreases names.len(),
    {
        if names.len() == 0 {
            StateView::empty()
        } else {
            StateView::after_creates(names.drop_last()).create(names.last())
        }
    }

    /// The identifiers of the items, in order.
    pub open spec fn ids(self) -> Seq<nat> {
        self.todos.map_values(|t: TodoView| t.id)
    }
}

/// At most one position is the first match for an identifier.
pub proof fn lemma_first_match_unique(s: StateView, id: nat, j: int, k: int)
    requires
        s.first_match(id, j),
        s.first_match(id, k),
    ensures
        j == k,
{
}

/// In a well-formed state the item with identifier `id` sits at position `id`.
pub proof fn lemma_wf_position(s: StateView, id: nat)
    requires
        s.wf(),
    ensures
        s.contains_id(id) <==> id < s.todos.len(),
        s.contains_id(id) ==> s.position_of(id) == id,
{
    if id < s.todos.len() {
        assert(s.first_match(id, id as int));
    }
}

/// Creating an item keeps the state well formed.
pub proof fn lemma_create_wf(s: StateView, name: Seq<char>)
    requires
        s.wf(),
    ensures
        s.create(name).wf(),
{
}

/// Toggling keeps the state well formed, the identifiers and texts in place,
/// and the number of items.
pub proof fn lemma_toggle_wf(s: StateView, id: nat)
    ensures
        s.toggle(id).todos.len() == s.todos.len(),
        s.toggle(id).next_id == s.next_id,
        s.toggle(id).ids() == s.ids(),
        s.wf() ==> s.toggle(id).wf(),
{
}

/// Any number of creations, starting from the empty store, hands out the
/// identifiers `0, 1, ..., n - 1` in that order: none is skipped and none is
/// used twice. Each item carries the text it was created with and is not done.
///
/// Creations that arrive at the same time are no exception: each one needs
/// the store exclusively, so they take effect in some order, and this holds
/// of every order.
pub proof fn lemma_creates_assign_consecutive_ids(names: Seq<Seq<char>>)
    ensures
        StateView::after_creates(names).wf(),
        StateView::after_creates(names).todos.len() == names.len(),
        StateView::after_creates(names).ids() == Seq::new(names.len(), |i: int| i as nat),
        StateView::after_creates(names).ids().no_duplicates(),
        StateView::after_creates(names).ids().to_set() == Set::new(|id: nat| id < names.len()),
        forall|i: int|
            0 <= i < names.len() ==> (#[trigger] StateView::after_creates(names).todos[i])
                == TodoView::fresh(i as nat, names[i]),
    decreases names.len(),
{
    let s = StateView::after_creates(names);
    if names.len() > 0 {
        lemma_creates_assign_consecutive_ids(names.drop_last());
    }
    assert forall|id: nat| s.ids().to_set().contains(id) <==> id < names.len() by {
        if id < names.len() {
            assert(s.ids()[id as int] == id);
        }
    }
}

/// Toggling the same identifier twice in a row gives back the state from
/// before the first toggle.
pub proof fn lemma_toggle_twice_restores(s: StateView, id: nat)
    ensures
        s.toggle(id).toggle(id) == s,
{
    if s.contains_id(id) {
        let j = s.position_of(id);
        let once = s.toggle(id);
        lemma_first_match_unique(once, id, j, once.position_of(id));
        assert(once.toggle(id).todos =~= s.todos);
    }
}

/// Toggling an identifier that no item carries changes nothing. After `n`
/// creations from the empty store those are exactly the identifiers from `n`
/// on.
pub proof fn lemma_toggle_unknown_id_is_noop(s: StateView, id: nat)
    requires
        !s.contains_id(id),
    ensures
        s.toggle(id) == s,
{
}

/// An identifier that was never handed out is not in the store.
pub proof fn lemma_never_created_is_unknown(names: Seq<Seq<char>>, id: nat)
    requires
        id >= names.len(),
    ensures
        !StateView::after_creates(names).contains_id(id),
        StateView::after_creates(names).toggle(id) == StateView::after_creates(names),
{
    lemma_creates_assign_consecutive_ids(names);
    lemma_wf_position(StateView::after_creates(names), id);
}

/// The number of completed items lies between zero and the number of items.
pub proof fn lemma_done_count_bounded(s: StateView)
    ensures
        0 <= s.done_count() <= s.todos.len(),
{
    s.todos.lemma_filter_len(|t: TodoView| t.done);
}

/// Creating an item leaves the number of completed items as it was; toggling
/// a known identifier moves it by exactly one.
pub proof fn lemma_done_count_steps(s: StateView, name: Seq<char>, id: nat)
    ensures
        s.create(name).done_count() == s.done_count(),
        s.contains_id(id) && s.todos[s.position_of(id)].done ==> s.toggle(id).done_count()
            == s.done_count() - 1,
        s.contains_id(id) && !s.todos[s.position_of(id)].done ==> s.toggle(id).done_count()
            == s.done_count() + 1,
{
    let done = |t: TodoView| t.done;
    s.todos.lemma_filter_push(TodoView::fresh(s.next_id, name), done);
    if s.contains_id(id) {
        let j = s.position_of(id);
        let after = s.toggle(id).todos;
        let head = s.todos.take(j);
        let tail = s.todos.skip(j + 1);
        assert(s.todos =~= head + seq![s.todos[j]] + tail);
        assert(after =~= head + seq![after[j]] + tail);
        Seq::filter_distributes_over_add(head + seq![s.todos[j]], tail, done);
        Seq::filter_distributes_over_add(head, seq![s.todos[j]], done);
        Seq::filter_distributes_over_add(head + seq![after[j]], tail, done);
        Seq::filter_distributes_over_add(head, seq![after[j]], done);
        reveal_with_fuel(Seq::filter, 2);
    }
}

} // verus!
