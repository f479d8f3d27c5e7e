//! What holds of the repository's operations taken together.

use crate::repository::{has_id, has_name, id_after, is_addition, position, RepositoryView};
use crate::todo::TodoView;
use vstd::prelude::*;

verus! {

/// One operation that changes a repository.
pub enum Step {
    /// An addition of an item called `name`, which returned `id`.
    Add { id: u128, name: Seq<char> },
    /// A toggle of the item that bears `id`.
    Toggle { id: u128 },
    /// A removal of the item that bears `id`.
    Remove { id: u128 },
}

/// Whether `step` takes a repository from `before` to `after`.
pub open spec fn is_step(before: RepositoryView, after: RepositoryView, step: Step) -> bool {
    match step {
        Step::Add { id, name } => is_addition(before, after, id, name),
        Step::Toggle { id } => after == before.with_toggled(id),
        Step::Remove { id } => after == before.without(id),
    }
}

/// Whether `states` are the states that a repository goes through while
/// `steps` take effect one after the other.
pub open spec fn is_run(states: Seq<RepositoryView>, steps: Seq<Step>) -> bool {
    &&& states.len() == steps.len() + 1
    &&& forall|i: int| 0 <= i < steps.len() ==> is_step(states[i], states[i + 1], #[trigger] steps[i])
}

/// Whether every step of `steps` is an addition.
pub open spec fn all_additions(steps: Seq<Step>) -> bool {
    forall|i: int| 0 <= i < steps.len() ==> #[trigger] steps[i] is Add
}

/// The items that the first `n` steps add, where all of them are
/// additions, in the order in which they were added.
pub open spec fn added_items(steps: Seq<Step>, n: int) -> Seq<TodoView> {
    Seq::new(
        n as nat,
        |i: int| TodoView { id: steps[i]->Add_id, name: steps[i]->Add_name, done: false },
    )
}

/// An identifier that is not taken is itself the first free one from there
/// on: `Repository::insert` keeps the identifier of such an item.
pub proof fn lemma_free_start_is_kept(repo: RepositoryView, start: u128)
    requires
        !repo.is_taken(start),
    ensures
        repo.is_first_free(start, start),
{
    assert(id_after(start, 0) == start);
}

/// There is one first free identifier from `start` on, and no other.
pub proof fn lemma_first_free_is_unique(repo: RepositoryView, start: u128, a: u128, b: u128)
    requires
        repo.is_first_free(start, a),
        repo.is_first_free(start, b),
    ensures
        a == b,
{
    let ka = choose|k: nat|
        {
            &&& a == #[trigger] id_after(start, k)
            &&& !repo.is_taken(a)
            &&& forall|j: nat| j < k ==> repo.is_taken(#[trigger] id_after(start, j))
        };
    let kb = choose|k: nat|
        {
            &&& b == #[trigger] id_after(start, k)
            &&& !repo.is_taken(b)
            &&& forall|j: nat| j < k ==> repo.is_taken(#[trigger] id_after(start, j))
        };
    if ka < kb {
        assert(repo.is_taken(id_after(start, ka)));
    } else if kb < ka {
        assert(repo.is_taken(id_after(start, kb)));
    }
}

/// Toggling changes the completion flag of the items that bear the
/// identifier and nothing else: no identifier, no name, no place.
pub proof fn lemma_toggle_flips_one_flag(repo: RepositoryView, id: u128)
    ensures
        repo.with_toggled(id).todos.len() == repo.todos.len(),
        repo.with_toggled(id).retired == repo.retired,
        forall|i: int|
            0 <= i < repo.todos.len() ==> {
                let then = #[trigger] repo.with_toggled(id).todos[i];
                &&& then.id == repo.todos[i].id
                &&& then.name == repo.todos[i].name
                &&& then.done == (if repo.todos[i].id == id {
                    !repo.todos[i].done
                } else {
                    repo.todos[i].done
                })
            },
{
}

/// Toggle involution: toggling the same identifier twice restores every
/// completion flag.
pub proof fn lemma_toggle_twice(repo: RepositoryView, id: u128)
    ensures
        repo.with_toggled(id).with_toggled(id) == repo,
{
    assert(repo.with_toggled(id).with_toggled(id).todos =~= repo.todos);
}

/// Tolerance: toggling or removing an identifier that no item bears changes
/// nothing.
pub proof fn lemma_unknown_id_changes_nothing(repo: RepositoryView, id: u128)
    requires
        !has_id(repo.todos, id),
    ensures
        repo.with_toggled(id) == repo,
        repo.without(id) == repo,
{
    assert forall|i: int| 0 <= i < repo.todos.len() implies repo.with_toggled(id).todos[i]
        == repo.todos[i] by {
        assert(repo.todos[i].id != id);
    }
    assert(repo.with_toggled(id).todos =~= repo.todos);
}

/// Removal: removing an identifier that an item bears takes away that item
/// and no other. The items before it keep their places, those after it
/// move up by one, and no item bears the identifier afterwards.
pub proof fn lemma_remove_takes_one(repo: RepositoryView, id: u128, at: int)
    requires
        repo.well_formed(),
        0 <= at < repo.todos.len(),
        repo.todos[at].id == id,
    ensures
        repo.without(id).todos.len() == repo.todos.len() - 1,
        forall|i: int| 0 <= i < at ==> #[trigger] repo.without(id).todos[i] == repo.todos[i],
        forall|i: int|
            at <= i < repo.todos.len() - 1 ==> #[trigger] repo.without(id).todos[i]
                == repo.todos[i + 1],
        !has_id(repo.without(id).todos, id),
        repo.without(id).retired == repo.retired.insert(id),
{
    assert(has_id(repo.todos, id));
    assert(position(repo.todos, id) == at);
    let rest = repo.without(id).todos;
    assert forall|i: int| 0 <= i < rest.len() implies (#[trigger] rest[i]).id != id by {
        if i < at {
            assert(repo.todos[i].id != repo.todos[at].id);
        } else {
            assert(repo.todos[at].id != repo.todos[i + 1].id);
        }
    }
}

/// Every operation keeps a repository well formed: identifiers stay
/// pairwise distinct, items keep a name, and no item bears a retired
/// identifier.
pub proof fn lemma_step_keeps_well_formed(
    before: RepositoryView,
    after: RepositoryView,
    step: Step,
)
    requires
        before.well_formed(),
        is_step(before, after, step),
    ensures
        after.well_formed(),
{
    match step {
        Step::Add { id, name } => {
            assert forall|i: int, j: int| 0 <= i < j < after.todos.len() implies (
            #[trigger] after.todos[i]).id != (#[trigger] after.todos[j]).id by {
                if j == before.todos.len() {
                    assert(before.todos[i].id == after.todos[i].id);
                } else {
                    assert(before.todos[i].id != before.todos[j].id);
                }
            }
            assert forall|i: int| 0 <= i < after.todos.len() implies !after.retired.contains(
                (#[trigger] after.todos[i]).id,
            ) && after.todos[i].name.len() > 0 by {
                if i < before.todos.len() {
                    assert(before.todos[i] == after.todos[i]);
                }
            }
        },
        Step::Toggle { id } => {
            lemma_toggle_flips_one_flag(before, id);
            assert forall|i: int, j: int| 0 <= i < j < after.todos.len() implies (
            #[trigger] after.todos[i]).id != (#[trigger] after.todos[j]).id by {
                assert(before.todos[i].id != before.todos[j].id);
            }
            assert forall|i: int| 0 <= i < after.todos.len() implies !after.retired.contains(
                (#[trigger] after.todos[i]).id,
            ) && after.todos[i].name.len() > 0 by {
                assert(before.todos[i].id == after.todos[i].id);
            }
        },
        Step::Remove { id } => {
            if has_id(before.todos, id) {
                let at = position(before.todos, id);
                lemma_remove_takes_one(before, id, at);
                assert forall|i: int, j: int| 0 <= i < j < after.todos.len() implies (
                #[trigger] after.todos[i]).id != (#[trigger] after.todos[j]).id by {
                    let a = if i < at {
                        i
                    } else {
                        i + 1
                    };
                    let b = if j < at {
                        j
                    } else {
                        j + 1
                    };
                    assert(before.todos[a].id != before.todos[b].id);
                }
                assert forall|i: int| 0 <= i < after.todos.len() implies !after.retired.contains(
                    (#[trigger] after.todos[i]).id,
                ) && after.todos[i].name.len() > 0 by {
                    let a = if i < at {
                        i
                    } else {
                        i + 1
                    };
                    assert(after.todos[i] == before.todos[a]);
                    assert(before.todos[a].id != before.todos[at].id);
                }
            }
        },
    }
}

/// Every state of a run that starts well formed is well formed.
pub proof fn lemma_run_keeps_well_formed(states: Seq<RepositoryView>, steps: Seq<Step>, n: int)
    requires
        is_run(states, steps),
        states[0].well_formed(),
        0 <= n <= steps.len(),
    ensures
        states[n].well_formed(),
    decreases n,
{
    if n > 0 {
        lemma_run_keeps_well_formed(states, steps, n - 1);
        lemma_step_keeps_well_formed(states[n - 1], states[n], steps[n - 1]);
    }
}

/// No operation frees an identifier: what is taken before a step is taken
/// after it.
pub proof fn lemma_step_keeps_taken(
    before: RepositoryView,
    after: RepositoryView,
    step: Step,
    id: u128,
)
    requires
        is_step(before, after, step),
        before.is_taken(id),
    ensures
        after.is_taken(id),
{
    if has_id(before.todos, id) {
        let p = position(before.todos, id);
        match step {
            Step::Add { id: _, name: _ } => {
                assert(after.todos[p].id == id);
            },
            Step::Toggle { id: _ } => {
                assert(after.todos[p].id == id);
            },
            Step::Remove { id: gone } => {
                if has_id(before.todos, gone) && gone != id {
                    let at = position(before.todos, gone);
                    if p < at {
                        assert(after.todos[p].id == id);
                    } else {
                        assert(after.todos[p - 1].id == id);
                    }
                }
            },
        }
    }
}

/// An identifier that is taken at one state of a run is taken at every
/// later one: no identifier is ever reused, not even that of a removed
/// item.
pub proof fn lemma_taken_stays_taken(
    states: Seq<RepositoryView>,
    steps: Seq<Step>,
    from: int,
    to: int,
    id: u128,
)
    requires
        is_run(states, steps),
        0 <= from <= to <= steps.len(),
        states[from].is_taken(id),
    ensures
        states[to].is_taken(id),
    decreases to - from,
{
    if from < to {
        lemma_taken_stays_taken(states, steps, from, to - 1, id);
        lemma_step_keeps_taken(states[to - 1], states[to], steps[to - 1], id);
    }
}

/// Identity uniqueness: whatever else happens in between, and whatever was
/// removed, two additions of a run never return the same identifier.
pub proof fn lemma_added_ids_are_distinct(
    states: Seq<RepositoryView>,
    steps: Seq<Step>,
    i: int,
    j: int,
)
    requires
        is_run(states, steps),
        0 <= i < j < steps.len(),
        steps[i] is Add,
        steps[j] is Add,
    ensures
        steps[i]->Add_id != steps[j]->Add_id,
{
    let id = steps[i]->Add_id;
    assert(states[i + 1].todos[states[i].todos.len() as int].id == id);
    assert(states[i + 1].is_taken(id));
    lemma_taken_stays_taken(states, steps, i + 1, j, id);
}

/// After `n` additions and nothing else, a repository holds what it held
/// at the start, followed by the `n` added items in the order of their
/// addition.
pub proof fn lemma_additions_keep_their_order(
    states: Seq<RepositoryView>,
    steps: Seq<Step>,
    n: int,
)
    requires
        is_run(states, steps),
        all_additions(steps),
        0 <= n <= steps.len(),
    ensures
        states[n].todos == states[0].todos + added_items(steps, n),
        states[n].retired == states[0].retired,
    decreases n,
{
    if n == 0 {
        assert(states[0].todos =~= states[0].todos + added_items(steps, 0));
    } else {
        lemma_additions_keep_their_order(states, steps, n - 1);
        assert(steps[n - 1] is Add);
        assert(states[n].todos =~= states[0].todos + added_items(steps, n));
    }
}

/// Insertion order: a repository that starts empty holds, after any number
/// of additions and no removal, exactly the added items in the order in
/// which they were added.
pub proof fn lemma_insertion_order(states: Seq<RepositoryView>, steps: Seq<Step>)
    requires
        is_run(states, steps),
        all_additions(steps),
        states[0] == RepositoryView::empty(),
    ensures
        states[steps.len() as int].todos == added_items(steps, steps.len() as int),
{
    let n = steps.len() as int;
    lemma_additions_keep_their_order(states, steps, n);
    assert(states[0].todos + added_items(steps, n) =~= added_items(steps, n));
}

/// No addition is lost: in whatever order the additions of a run take
/// effect, a repository that starts empty ends with as many items as there
/// were additions, and each added name is the name of one of them.
pub proof fn lemma_no_addition_is_lost(states: Seq<RepositoryView>, steps: Seq<Step>)
    requires
        is_run(states, steps),
        all_additions(steps),
        states[0] == RepositoryView::empty(),
    ensures
        states[steps.len() as int].todos.len() == steps.len(),
        forall|i: int|
            0 <= i < steps.len() ==> has_name(
                states[steps.len() as int].todos,
                (#[trigger] steps[i])->Add_name,
            ),
{
    lemma_insertion_order(states, steps);
    let last = states[steps.len() as int].todos;
    assert forall|i: int| 0 <= i < steps.len() implies has_name(
        last,
        (#[trigger] steps[i])->Add_name,
    ) by {
        assert(last[i].name == steps[i]->Add_name);
    }
}

/// The number of items is the number of items added less the number of
/// items removed: an addition adds one, a removal takes one away where an
/// item bears the identifier, and nothing else changes the number.
pub proof fn lemma_step_counts(before: RepositoryView, after: RepositoryView, step: Step)
    requires
        is_step(before, after, step),
    ensures
        after.todos.len() - before.todos.len() == match step {
            Step::Add { id, name } => 1int,
            Step::Toggle { id } => 0int,
            Step::Remove { id } => if has_id(before.todos, id) {
                -1int
            } else {
                0int
            },
        },
{
    match step {
        Step::Remove { id } => {
            if has_id(before.todos, id) {
                let at = position(before.todos, id);
                assert(0 <= at < before.todos.len());
            }
        },
        _ => {},
    }
}

} // verus!
