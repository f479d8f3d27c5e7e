//! The repository: the ordered collection of to-do items.

use crate::error::TodoError;
use crate::todo::{Todo, TodoView};
use vstd::prelude::*;

verus! {

/// Whether some item of `s` bears `id`.
pub open spec fn has_id(s: Seq<TodoView>, id: u128) -> bool {
    exists|i: int| 0 <= i < s.len() && (#[trigger] s[i]).id == id
}

/// Whether some item of `s` is called `name`.
pub open spec fn has_name(s: Seq<TodoView>, name: Seq<char>) -> bool {
    exists|i: int| 0 <= i < s.len() && (#[trigger] s[i]).name == name
}

/// No two items of `s` bear the same identifier.
pub open spec fn distinct_ids(s: Seq<TodoView>) -> bool {
    forall|i: int, j: int|
        0 <= i < j < s.len() ==> (#[trigger] s[i]).id != (#[trigger] s[j]).id
}

/// Every item of `s` has a name.
pub open spec fn all_named(s: Seq<TodoView>) -> bool {
    forall|i: int| 0 <= i < s.len() ==> (#[trigger] s[i]).name.len() > 0
}

/// The values of the items of `todos`, in order.
pub open spec fn views(todos: Seq<Todo>) -> Seq<TodoView> {
    Seq::new(todos.len(), |i: int| todos[i]@)
}

/// The place in `s` of an item that bears `id`, if there is one.
pub open spec fn position(s: Seq<TodoView>, id: u128) -> int {
    choose|i: int| 0 <= i < s.len() && (#[trigger] s[i]).id == id
}

/// The number of 128-bit identifiers.
pub open spec fn id_space() -> nat {
    0x1_0000_0000_0000_0000_0000_0000_0000_0000nat
}

/// The identifier `k` steps after `start`, counting up and wrapping round
/// from the largest identifier to zero.
pub open spec fn id_after(start: u128, k: nat) -> u128 {
    ((start as nat + k) % id_space()) as u128
}

/// The mathematical value of a repository.
pub struct RepositoryView {
    /// The items, in the order in which they were added.
    pub todos: Seq<TodoView>,
    /// The identifiers of the items that were removed.
    pub retired: Set<u128>,
}

impl RepositoryView {
    /// The repository that never held an item.
    pub open spec fn empty() -> RepositoryView {
        RepositoryView { todos: Seq::empty(), retired: Set::empty() }
    }

    /// What holds of every repository: no two items share an identifier,
    /// each item has a name, and no item bears the identifier of a removed
    /// one.
    pub open spec fn well_formed(self) -> bool {
        &&& distinct_ids(self.todos)
        &&& all_named(self.todos)
        &&& forall|i: int| 0 <= i < self.todos.len() ==> !self.retired.contains(
            (#[trigger] self.todos[i]).id,
        )
    }

    /// Whether `id` is or ever was the identifier of an item.
    pub open spec fn is_taken(self, id: u128) -> bool {
        has_id(self.todos, id) || self.retired.contains(id)
    }

    /// Whether `id` is the first identifier, counting up from `start` and
    /// wrapping round, that is not taken.
    pub open spec fn is_first_free(self, start: u128, id: u128) -> bool {
        exists|k: nat|
            {
                &&& id == #[trigger] id_after(start, k)
                &&& !self.is_taken(id)
                &&& forall|j: nat| j < k ==> self.is_taken(#[trigger] id_after(start, j))
            }
    }

    /// The repository with `todo` added at the end.
    pub open spec fn with_added(self, todo: TodoView) -> RepositoryView {
        RepositoryView { todos: self.todos.push(todo), ..self }
    }

    /// The repository with the completion flag of every item that bears
    /// `id` flipped.
    pub open spec fn with_toggled(self, id: u128) -> RepositoryView {
        RepositoryView {
            todos: Seq::new(
                self.todos.len(),
                |i: int|
                    if self.todos[i].id == id {
                        self.todos[i].toggled()
                    } else {
                        self.todos[i]
                    },
            ),
            ..self
        }
    }

    /// The repository without the item that bears `id`, whose identifier is
    /// retired; the repository itself where no item bears `id`.
    pub open spec fn without(self, id: u128) -> RepositoryView {
        if has_id(self.todos, id) {
            RepositoryView {
                todos: self.todos.remove(position(self.todos, id)),
                retired: self.retired.insert(id),
            }
        } else {
            self
        }
    }
}

/// Whether `after` is `before` with one more item at the end: a new, not yet
/// completed item called `name`, under an identifier `id` that was not
/// taken.
pub open spec fn is_addition(
    before: RepositoryView,
    after: RepositoryView,
    id: u128,
    name: Seq<char>,
) -> bool {
    &&& !before.is_taken(id)
    &&& name.len() > 0
    &&& after == before.with_added(TodoView { id, name, done: false })
}

/// Counting up from `start`, fewer than `id_space()` steps never meet the
/// same identifier twice.
proof fn lemma_id_after_injective(start: u128, j: nat, k: nat)
    requires
        j < k < id_space(),
    ensures
        id_after(start, j) != id_after(start, k),
{
    let m = id_space() as int;
    let a = start as int + j as int;
    let b = start as int + k as int;
    if a % m == b % m {
        assert(a == m * (a / m) + a % m) by (nonlinear_arith)
            requires
                m > 0,
        ;
        assert(b == m * (b / m) + b % m) by (nonlinear_arith)
            requires
                m > 0,
        ;
        assert(b - a == m * (b / m - a / m)) by (nonlinear_arith)
            requires
                a == m * (a / m) + a % m,
                b == m * (b / m) + b % m,
                a % m == b % m,
        ;
        assert(false) by (nonlinear_arith)
            requires
                0 < b - a < m,
                b - a == m * (b / m - a / m),
        ;
    }
}

/// If the first `k` identifiers from `start` on all occur in `taken`, then
/// `taken` has at least `k` entries.
proof fn lemma_taken_run_is_short(taken: Seq<u128>, start: u128, k: nat)
    requires
        k <= id_space(),
        forall|j: nat| j < k ==> taken.contains(#[trigger] id_after(start, j)),
    ensures
        k <= taken.len(),
    decreases k,
{
    if k > 0 {
        let last = id_after(start, (k - 1) as nat);
        assert(taken.contains(last));
        let p = choose|p: int| 0 <= p < taken.len() && taken[p] == last;
        let rest = taken.remove(p);
        assert forall|j: nat| j < k - 1 implies rest.contains(#[trigger] id_after(start, j)) by {
            let id = id_after(start, j);
            assert(taken.contains(id));
            lemma_id_after_injective(start, j, (k - 1) as nat);
            let q = choose|q: int| 0 <= q < taken.len() && taken[q] == id;
            if q < p {
                assert(rest[q] == id);
            } else {
                assert(rest[q - 1] == id);
            }
        }
        lemma_taken_run_is_short(rest, start, (k - 1) as nat);
    }
}

/// How often `Repository::add_todo` draws a new identifier, after the first,
/// while the one drawn is already taken.
pub const REDRAWS: u8 = 3;

/// The ordered collection of to-do items. Items keep the order in which they
/// were added, no two of them share an identifier, and each has a name. The
/// repository remembers the identifiers of removed items, so that none is
/// ever given to another item.
pub struct Repository {
    todos: Vec<Todo>,
    retired: Vec<u128>,
}

impl View for Repository {
    type V = RepositoryView;

    closed spec fn view(&self) -> RepositoryView {
        RepositoryView { todos: views(self.todos@), retired: self.retired@.to_set() }
    }
}

impl Repository {
    #[verifier::type_invariant]
    spec fn well_formed(self) -> bool {
        self@.well_formed()
    }

    /// The identifiers that are taken, those of the items first.
    spec fn taken(self) -> Seq<u128> {
        Seq::new(self.todos@.len(), |i: int| self.todos@[i]@.id) + self.retired@
    }

    /// `taken` holds the identifiers that are taken, and no others.
    proof fn lemma_taken(self)
        ensures
            forall|id: u128| self.taken().contains(id) <==> self@.is_taken(id),
            self.taken().len() == self.todos@.len() + self.retired@.len(),
    {
        let taken = self.taken();
        let n = self.todos@.len() as int;
        assert forall|id: u128| taken.contains(id) implies self@.is_taken(id) by {
            let p = choose|p: int| 0 <= p < taken.len() && taken[p] == id;
            if p < n {
                assert(self@.todos[p].id == id);
            } else {
                assert(self.retired@[p - n] == id);
            }
        }
        assert forall|id: u128| self@.is_taken(id) implies taken.contains(id) by {
            if has_id(self@.todos, id) {
                let p = position(self@.todos, id);
                assert(taken[p] == id);
            } else {
                let p = choose|p: int| 0 <= p < self.retired@.len() && self.retired@[p] == id;
                assert(taken[n + p] == id);
            }
        }
    }

    /// The empty repository.
    pub fn new() -> (repo: Repository)
        ensures
            repo@ == RepositoryView::empty(),
    {
        let repo = Repository { todos: Vec::new(), retired: Vec::new() };
        assert(repo@.todos =~= Seq::<TodoView>::empty());
        assert(repo@.retired =~= Set::<u128>::empty());
        repo
    }

    /// The number of items.
    pub fn len(&self) -> (n: usize)
        ensures
            n == self@.todos.len(),
    {
        self.todos.len()
    }

    /// Whether an item bears `id`.
    pub fn contains(&self, id: u128) -> (found: bool)
        ensures
            found == has_id(self@.todos, id),
    {
        let mut i: usize = 0;
        while i < self.todos.len()
            invariant
                i <= self.todos.len(),
                forall|j: int| 0 <= j < i ==> (#[trigger] self@.todos[j]).id != id,
            decreases self.todos.len() - i,
        {
            if self.todos[i].id() == id {
                assert(self@.todos[i as int].id == id);
                return true;
            }
            i += 1;
        }
        false
    }

    /// Whether `id` is or ever was the identifier of an item.
    pub fn is_taken(&self, id: u128) -> (taken: bool)
        ensures
            taken == self@.is_taken(id),
    {
        if self.contains(id) {
            return true;
        }
        let mut i: usize = 0;
        while i < self.retired.len()
            invariant
                i <= self.retired.len(),
                forall|j: int| 0 <= j < i ==> self.retired@[j] != id,
            decreases self.retired.len() - i,
        {
            if self.retired[i] == id {
                assert(self.retired@.contains(id));
                return true;
            }
            i += 1;
        }
        false
    }

    /// A copy of the items, in the order in which they were added.
    pub fn list(&self) -> (todos: Vec<Todo>)
        ensures
            views(todos@) == self@.todos,
            self@.well_formed(),
    {
        proof {
            use_type_invariant(self);
        }
        let mut out: Vec<Todo> = Vec::new();
        let mut i: usize = 0;
        while i < self.todos.len()
            invariant
                i <= self.todos.len(),
                out@.len() == i,
                forall|j: int| 0 <= j < i ==> (#[trigger] out@[j])@ == self.todos@[j]@,
            decreases self.todos.len() - i,
        {
            out.push(self.todos[i].clone());
            i += 1;
        }
        assert(views(out@) =~= self@.todos);
        out
    }

    /// Adds `todo` at the end, under its own identifier if that is not
    /// taken, else under the next one that is not. An item without a name is
    /// rejected.
    pub fn insert(&mut self, todo: Todo) -> (added: Result<u128, TodoError>)
        ensures
            todo@.name.len() == 0 ==> added == Err::<u128, TodoError>(TodoError::Validation)
                && final(self)@ == old(self)@,
            todo@.name.len() > 0 ==> added is Ok && old(self)@.is_first_free(
                todo@.id,
                added->Ok_0,
            ) && final(self)@ == old(self)@.with_added(todo@.with_id(added->Ok_0)),
    {
        proof {
            use_type_invariant(&*self);
        }
        if todo.name().is_empty() {
            return Err(TodoError::Validation);
        }
        let ghost before = self@;
        let ghost taken = self.taken();
        let ghost start = todo@.id;
        proof {
            self.lemma_taken();
        }
        let items = self.todos.len();
        let retired = self.retired.len();
        let mut todo = todo;
        let mut id: u128 = todo.id();
        let mut k: u128 = 0;
        while self.is_taken(id)
            invariant
                self@ == before,
                k <= taken.len() == items + retired,
                forall|id: u128| taken.contains(id) <==> before.is_taken(id),
                id == id_after(start, k as nat),
                forall|j: nat| j < k ==> before.is_taken(#[trigger] id_after(start, j)),
            decreases taken.len() - k,
        {
            proof {
                lemma_taken_run_is_short(taken, start, (k + 1) as nat);
            }
            id = if id == u128::MAX {
                0
            } else {
                id + 1
            };
            k += 1;
        }
        todo.rebadge(id);
        let mut todos: Vec<Todo> = Vec::new();
        std::mem::swap(&mut todos, &mut self.todos);
        todos.push(todo);
        assert(views(todos@) =~= before.todos.push(todo@));
        self.todos = todos;
        Ok(id)
    }

    /// Adds a new, not yet completed item called `name` at the end and
    /// returns its identifier, which was never the identifier of another
    /// item. The identifier is drawn at random, and drawn again while it is
    /// taken; should `REDRAWS` further draws not yield a free one, the next
    /// free identifier after the last draw is taken. An empty name is
    /// rejected.
    pub fn add_todo(&mut self, name: &str) -> (added: Result<u128, TodoError>)
        ensures
            name@.len() == 0 ==> added == Err::<u128, TodoError>(TodoError::Validation)
                && final(self)@ == old(self)@,
            name@.len() > 0 ==> added is Ok && is_addition(
                old(self)@,
                final(self)@,
                added->Ok_0,
                name@,
            ),
    {
        if name.is_empty() {
            return Err(TodoError::Validation);
        }
        let mut todo = Todo::new(name);
        let mut redraws: u8 = 0;
        while redraws < REDRAWS && self.is_taken(todo.id())
            invariant
                redraws <= REDRAWS,
                todo@.name == name@,
                !todo@.done,
                self@ == old(self)@,
            decreases REDRAWS - redraws,
        {
            todo = Todo::new(name);
            redraws += 1;
        }
        self.insert(todo)
    }

    /// Flips the completion flag of the item that bears `id`. Where no item
    /// bears it, nothing changes.
    pub fn toggle_todo(&mut self, id: u128)
        ensures
            final(self)@ == old(self)@.with_toggled(id),
    {
        proof {
            use_type_invariant(&*self);
        }
        let ghost before = self@;
        let mut todos: Vec<Todo> = Vec::new();
        std::mem::swap(&mut todos, &mut self.todos);
        let mut i: usize = 0;
        while i < todos.len()
            invariant
                i <= todos@.len() == before.todos.len(),
                forall|j: int|
                    0 <= j < i ==> (#[trigger] todos@[j])@ == before.with_toggled(id).todos[j],
                forall|j: int| i <= j < before.todos.len() ==> (#[trigger] todos@[j])@ == before.todos[j],
            decreases todos.len() - i,
        {
            if todos[i].id() == id {
                todos[i].toggle();
            }
            i += 1;
        }
        assert(views(todos@) =~= before.with_toggled(id).todos);
        self.todos = todos;
    }

    /// Removes the item that bears `id` and retires the identifier; the
    /// other items keep their order. Where no item bears `id`, nothing
    /// changes.
    pub fn remove_todo(&mut self, id: u128)
        ensures
            final(self)@ == old(self)@.without(id),
    {
        proof {
            use_type_invariant(&*self);
        }
        let ghost before = self@;
        let count = self.todos.len();
        let mut found: usize = count;
        let mut i: usize = 0;
        while i < count
            invariant
                self@ == before,
                count == self.todos@.len() == before.todos.len(),
                i <= count,
                found <= count,
                found < count ==> before.todos[found as int].id == id,
                found == count ==> forall|j: int|
                    0 <= j < i ==> (#[trigger] before.todos[j]).id != id,
            decreases count - i,
        {
            if self.todos[i].id() == id {
                found = i;
            }
            i += 1;
        }
        if found < count {
            let mut todos: Vec<Todo> = Vec::new();
            let mut retired: Vec<u128> = Vec::new();
            std::mem::swap(&mut todos, &mut self.todos);
            std::mem::swap(&mut retired, &mut self.retired);
            todos.remove(found);
            retired.push(id);
            proof {
                assert(position(before.todos, id) == found);
                assert(views(todos@) =~= before.todos.remove(found as int));
                old(self).retired@.lemma_push_to_set_commute(id);
                assert(retired@.to_set() =~= before.retired.insert(id));
            }
            self.retired = retired;
            self.todos = todos;
        }
    }
}

} // verus!
