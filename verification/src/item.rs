//! A task and the mathematical model of a task list.

use vstd::prelude::*;

verus! {

/// What a task is, as a plain value: its name and whether it is completed.
pub struct ItemView {
    pub name: Seq<char>,
    pub done: bool,
}

/// A named unit of work with a completion flag.
///
/// A task has no identifier of its own: it is known by its position in the
/// list that holds it.
#[derive(Debug, PartialEq, Eq)]
pub struct Item {
    pub name: String,
    pub done: bool,
}

impl View for Item {
    type V = ItemView;

    open spec fn view(&self) -> ItemView {
        ItemView { name: self.name@, done: self.done }
    }
}

impl DeepView for Item {
    type V = ItemView;

    open spec fn deep_view(&self) -> ItemView {
        self@
    }
}

impl ItemView {
    /// The same task with its completion flag set to `done`.
    pub open spec fn marked(self, done: bool) -> ItemView {
        ItemView { name: self.name, done }
    }
}

impl Item {
    /// A task with the given name that is not completed yet.
    pub fn new(name: String) -> (item: Item)
        ensures
            item@ == (ItemView { name: name@, done: false }),
    {
        Item { name, done: false }
    }
}

} // verus!
