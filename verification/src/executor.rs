//! Applying a command to the task list.

use vstd::prelude::*;
use crate::command::{Command, CommandView};
use crate::item::{Item, ItemView};
use crate::parser::{parse_command, parse_line};
use crate::text::{
    help_screen, listing, missing_notice, print_help, print_list, print_missing, print_unknown,
    unknown_notice,
};

verus! {

/// Whether the 1-based `position` names a task of a list of `len` tasks.
pub open spec fn in_range(position: nat, len: nat) -> bool {
    1 <= position <= len
}

/// Whether `command` cannot be applied to a list of `len` tasks: it removes
/// at a position where there is no task. Nothing recovers from that, so the
/// functions that apply a command leave such a command to their caller.
pub open spec fn is_fatal(command: CommandView, len: nat) -> bool {
    command matches CommandView::Remove(Some(position)) && !in_range(position, len)
}

/// The task list after `command` was applied to `tasks`.
///
/// A position is 1-based: it names `tasks[position - 1]`. Marking a task at
/// a position where there is none changes nothing. Removing at such a
/// position is fatal and no function applies it; here it stands for no
/// change.
pub open spec fn next_tasks(command: CommandView, tasks: Seq<ItemView>) -> Seq<ItemView> {
    match command {
        CommandView::Add(name) => tasks.push(ItemView { name, done: false }),
        CommandView::Remove(Some(position)) => if in_range(position, tasks.len()) {
            tasks.remove(position - 1)
        } else {
            tasks
        },
        CommandView::Done(Some(position)) => if in_range(position, tasks.len()) {
            tasks.update(position - 1, tasks[position - 1].marked(true))
        } else {
            tasks
        },
        CommandView::Undone(Some(position)) => if in_range(position, tasks.len()) {
            tasks.update(position - 1, tasks[position - 1].marked(false))
        } else {
            tasks
        },
        _ => tasks,
    }
}

/// What applying `command` to `tasks` shows to the user.
pub open spec fn output_of(command: CommandView, tasks: Seq<ItemView>) -> Seq<char> {
    match command {
        CommandView::Add(_) => Seq::empty(),
        CommandView::Remove(Some(_)) => Seq::empty(),
        CommandView::List => listing(tasks),
        CommandView::Done(Some(position)) | CommandView::Undone(Some(position)) => if in_range(
            position,
            tasks.len(),
        ) {
            Seq::empty()
        } else {
            missing_notice(position)
        },
        CommandView::Remove(None) | CommandView::Done(None) | CommandView::Undone(None) => {
            help_screen()
        },
        CommandView::Help => help_screen(),
        CommandView::Exit => Seq::empty(),
        CommandView::Unknown => unknown_notice(),
    }
}

/// Whether `command` ends the command loop.
pub open spec fn terminates(command: CommandView) -> bool {
    command is Exit
}

impl Command {
    /// Whether this command cannot be applied to a list of `len` tasks.
    pub fn is_fatal(&self, len: usize) -> (fatal: bool)
        ensures
            fatal == is_fatal(self@, len as nat),
    {
        match self {
            Command::Remove(Some(position)) => *position < 1 || *position > len,
            _ => false,
        }
    }
}

/// Sets the completion flag of the task at the 1-based `position`, or says
/// in `out` that there is no such task.
fn set_done(position: usize, done: bool, list: &mut Vec<Item>, out: &mut String)
    ensures
        final(list).deep_view() == (if in_range(position as nat, old(list)@.len()) {
            old(list).deep_view().update(
                position - 1,
                old(list).deep_view()[position - 1].marked(done),
            )
        } else {
            old(list).deep_view()
        }),
        final(out)@ == old(out)@ + (if in_range(position as nat, old(list)@.len()) {
            Seq::empty()
        } else {
            missing_notice(position as nat)
        }),
{
    if 1 <= position && position <= list.len() {
        list[position - 1].done = done;
        assert(list.deep_view() =~= old(list).deep_view().update(
            position - 1,
            old(list).deep_view()[position - 1].marked(done),
        ));
        assert(out@ =~= old(out)@ + Seq::<char>::empty());
    } else {
        print_missing(position, out);
    }
}

/// Applies `command` to `list` and appends to `out` what the user is shown.
/// Returns whether the command loop ends.
///
/// A command that removes at a position where there is no task is left out:
/// see [`Command::is_fatal`].
pub fn execute_command_by_type(command: &Command, list: &mut Vec<Item>, out: &mut String) -> (stop:
    bool)
    requires
        !is_fatal(command@, old(list)@.len()),
    ensures
        stop == terminates(command@),
        final(list).deep_view() == next_tasks(command@, old(list).deep_view()),
        final(out)@ == old(out)@ + output_of(command@, old(list).deep_view()),
{
    match command {
        Command::Add(name) => {
            list.push(Item::new(name.clone()));
            assert(list.deep_view() =~= old(list).deep_view().push(
                ItemView { name: name@, done: false },
            ));
        },
        Command::Remove(index) => match index {
            Some(position) => {
                list.remove(*position - 1);
                assert(list.deep_view() =~= old(list).deep_view().remove(*position - 1));
            },
            None => print_help(out),
        },
        Command::List => print_list(list, out),
        Command::Done(index) => match index {
            Some(position) => set_done(*position, true, list, out),
            None => print_help(out),
        },
        Command::Undone(index) => match index {
            Some(position) => set_done(*position, false, list, out),
            None => print_help(out),
        },
        Command::Help => print_help(out),
        Command::Exit => {
            assert(out@ =~= old(out)@ + Seq::<char>::empty());
            return true;
        },
        Command::Unknown => print_unknown(out),
    }
    assert(out@ =~= old(out)@ + output_of(command@, old(list).deep_view()));
    false
}

/// Reads the command that the line `command` stands for, applies it to
/// `list` and appends to `out` what the user is shown. Returns whether the
/// command loop ends.
///
/// The line is taken as it is: a caller that wants surrounding blanks and
/// upper case ignored normalizes it first. A line that removes at a position
/// where there is no task is left out: see [`Command::is_fatal`].
pub fn execute_command_by_name(command: &String, list: &mut Vec<Item>, out: &mut String) -> (stop:
    bool)
    requires
        !is_fatal(parse_line(command@), old(list)@.len()),
    ensures
        stop == terminates(parse_line(command@)),
        final(list).deep_view() == next_tasks(parse_line(command@), old(list).deep_view()),
        final(out)@ == old(out)@ + output_of(parse_line(command@), old(list).deep_view()),
{
    let parsed = parse_command(command.as_str());
    execute_command_by_type(&parsed, list, out)
}

} // verus!
