//! The commands that a line of input can stand for.

use vstd::prelude::*;

verus! {

/// A command as a plain value.
///
/// An index is the 1-based position that the user typed. It is absent where
/// the line held nothing after the command word.
pub enum CommandView {
    Add(Seq<char>),
    Remove(Option<nat>),
    List,
    Done(Option<nat>),
    Undone(Option<nat>),
    Help,
    Exit,
    Unknown,
}

/// One parsed line of input.
#[derive(Debug, PartialEq, Eq)]
pub enum Command {
    /// Append a task with this name.
    Add(String),
    /// Delete the task at this 1-based position.
    Remove(Option<usize>),
    /// Show all tasks.
    List,
    /// Mark the task at this 1-based position as completed.
    Done(Option<usize>),
    /// Mark the task at this 1-based position as not completed.
    Undone(Option<usize>),
    /// Show the usage text.
    Help,
    /// Leave the command loop.
    Exit,
    /// Anything else.
    Unknown,
}

/// An optional machine index as an optional natural number.
pub open spec fn index_view(index: Option<usize>) -> Option<nat> {
    match index {
        Some(i) => Some(i as nat),
        None => None,
    }
}

impl View for Command {
    type V = CommandView;

    open spec fn view(&self) -> CommandView {
        match *self {
            Command::Add(name) => CommandView::Add(name@),
            Command::Remove(index) => CommandView::Remove(index_view(index)),
            Command::List => CommandView::List,
            Command::Done(index) => CommandView::Done(index_view(index)),
            Command::Undone(index) => CommandView::Undone(index_view(index)),
            Command::Help => CommandView::Help,
            Command::Exit => CommandView::Exit,
            Command::Unknown => CommandView::Unknown,
        }
    }
}

} // verus!
