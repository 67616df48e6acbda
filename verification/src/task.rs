//! The single entity of the system: a to-do row.

use vstd::prelude::*;

verus! {

/// One to-do row: a stable unique id assigned by the store, a
/// user-supplied title, and a completion flag that every insertion
/// initialises to `false`.
#[derive(Debug)]
pub struct Todo {
    id: u16,
    title: String,
    completed: bool,
}

/// The mathematical value of a [`Todo`].
pub ghost struct TodoModel {
    pub id: u16,
    pub title: Seq<char>,
    pub completed: bool,
}

impl View for Todo {
    type V = TodoModel;

    closed spec fn view(&self) -> TodoModel {
        TodoModel { id: self.id, title: self.title@, completed: self.completed }
    }
}

/// The sequence of row values behind a sequence of rows.
pub open spec fn models_of(s: Seq<Todo>) -> Seq<TodoModel> {
    s.map_values(|t: Todo| t@)
}

impl Todo {
    /// Builds the row `{ id, title, completed }`.
    pub fn new(id: u16, title: String, completed: bool) -> (t: Todo)
        ensures
            t@ == (TodoModel { id, title: title@, completed }),
    {
        Todo { id, title, completed }
    }

    /// The store-assigned id of the row.
    pub fn id(&self) -> (r: u16)
        ensures
            r == self@.id,
    {
        self.id
    }

    /// The user-supplied title of the row.
    pub fn title(&self) -> (r: &String)
        ensures
            r@ == self@.title,
    {
        &self.title
    }

    /// The completion flag of the row.
    pub fn completed(&self) -> (r: bool)
        ensures
            r == self@.completed,
    {
        self.completed
    }
}

impl Clone for Todo {
    fn clone(&self) -> (r: Self)
        ensures
            r == *self,
    {
        Todo { id: self.id, title: self.title.clone(), completed: self.completed }
    }
}

impl PartialEq for Todo {
    fn eq(&self, other: &Todo) -> (r: bool) {
        self.id == other.id && self.title == other.title && self.completed == other.completed
    }
}

impl vstd::std_specs::cmp::PartialEqSpecImpl for Todo {
    open spec fn obeys_eq_spec() -> bool {
        true
    }

    open spec fn eq_spec(&self, other: &Todo) -> bool {
        self@ == other@
    }
}

} // verus!
