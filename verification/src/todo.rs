//! The to-do item.

use crate::ident::{fresh_id, is_random_id};
use vstd::prelude::*;

verus! {

/// The mathematical value of a to-do item.
pub struct TodoView {
    pub id: u128,
    pub name: Seq<char>,
    pub done: bool,
}

impl TodoView {
    /// This item with its completion flag flipped.
    pub open spec fn toggled(self) -> TodoView {
        TodoView { done: !self.done, ..self }
    }

    /// This item under the identifier `id`.
    pub open spec fn with_id(self, id: u128) -> TodoView {
        TodoView { id, ..self }
    }
}

/// A tracked item: a name, a completion flag and an identifier.
#[derive(Debug)]
pub struct Todo {
    done: bool,
    name: String,
    id: u128,
}

impl View for Todo {
    type V = TodoView;

    closed spec fn view(&self) -> TodoView {
        TodoView { id: self.id, name: self.name@, done: self.done }
    }
}

impl Clone for Todo {
    fn clone(&self) -> (copy: Todo)
        ensures
            copy@ == self@,
    {
        Todo { done: self.done, name: self.name.clone(), id: self.id }
    }
}

impl Todo {
    /// A new, not yet completed item called `name`, under a freshly drawn
    /// random identifier. A repository takes it only if it has a name.
    pub fn new(name: &str) -> (todo: Todo)
        ensures
            todo@.name == name@,
            !todo@.done,
            is_random_id(todo@.id),
    {
        Todo { done: false, name: name.to_owned(), id: fresh_id() }
    }

    /// A new, not yet completed item called `name`, under the identifier `id`.
    pub fn with_id(id: u128, name: &str) -> (todo: Todo)
        ensures
            todo@ == (TodoView { id, name: name@, done: false }),
    {
        Todo { done: false, name: name.to_owned(), id }
    }

    /// The identifier.
    pub fn id(&self) -> (id: u128)
        ensures
            id == self@.id,
    {
        self.id
    }

    /// The name.
    pub fn name(&self) -> (name: &str)
        ensures
            name@ == self@.name,
    {
        self.name.as_str()
    }

    /// Whether the item is completed.
    pub fn done(&self) -> (done: bool)
        ensures
            done == self@.done,
    {
        self.done
    }

    /// Flips the completion flag.
    pub(crate) fn toggle(&mut self)
        ensures
            final(self)@ == old(self)@.toggled(),
    {
        self.done = !self.done;
    }

    /// Puts the item under the identifier `id`.
    pub(crate) fn rebadge(&mut self, id: u128)
        ensures
            final(self)@ == old(self)@.with_id(id),
    {
        self.id = id;
    }
}

} // verus!
