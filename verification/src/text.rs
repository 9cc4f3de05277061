//! What the task list shows to its user: the fixed texts and the listing.

use vstd::prelude::*;
use crate::decimal::{decimal, push_decimal};
use crate::item::{Item, ItemView};

verus! {

/// What marks a completed task in the listing.
pub const DONE_MARK: &'static str = "x";

/// What stands in the place of the mark for a task that is not completed.
pub const OPEN_MARK: &'static str = " ";

/// The usage text. It ends with an empty line.
pub const HELP_SCREEN: &'static str =
    "TODO app\n\nUsage: \n    list            list items\n    add <name>      add new item with given <name>\n    remove <index>  remove item at <index>\n    done <index>    mark item at <index> as done\n    undone <index>  mark item at <index> as undone\n    help            display this help screen\n    exit            exit program\n\nYou can also use just first letter of the command, like 'h' for help or 'l' for list\n\n";

/// The answer to a line that is no command.
pub const UNKNOWN_NOTICE: &'static str =
    "\nI don't know this command yet!\nType \"help\" to see usage\n";

/// The line above the listed tasks.
pub const LIST_HEADER: &'static str = "TODO list: \n";

/// The usage text as a sequence of characters.
pub open spec fn help_screen() -> Seq<char> {
    HELP_SCREEN@
}

/// The answer to a line that is no command, as a sequence of characters.
pub open spec fn unknown_notice() -> Seq<char> {
    UNKNOWN_NOTICE@
}

/// The answer to a position at which the list holds no task. It names the
/// position as the user gave it.
pub open spec fn missing_notice(position: nat) -> Seq<char> {
    "Couldn't access item number "@ + decimal(position) + "\n"@
}

/// The line above the listed tasks, as a sequence of characters.
pub open spec fn list_header() -> Seq<char> {
    LIST_HEADER@
}

/// What stands between the brackets of a listed task.
pub open spec fn mark(done: bool) -> Seq<char> {
    if done {
        DONE_MARK@
    } else {
        OPEN_MARK@
    }
}

/// The line that shows `item` at the 1-based `position`.
pub open spec fn row(position: nat, item: ItemView) -> Seq<char> {
    "  "@ + decimal(position) + ". ["@ + mark(item.done) + "] "@ + item.name + "\n"@
}

/// One line for each task, in the order of the list, numbered from 1.
pub open spec fn rows(tasks: Seq<ItemView>) -> Seq<Seq<char>> {
    Seq::new(tasks.len(), |i: int| row((i + 1) as nat, tasks[i]))
}

/// The header and below it the line of each task.
pub open spec fn listing(tasks: Seq<ItemView>) -> Seq<char> {
    list_header() + rows(tasks).flatten()
}

/// Appends the usage text to `out`.
pub fn print_help(out: &mut String)
    ensures
        final(out)@ == old(out)@ + help_screen(),
{
    out.append(HELP_SCREEN);
}

/// Appends to `out` the answer to a line that is no command.
pub fn print_unknown(out: &mut String)
    ensures
        final(out)@ == old(out)@ + unknown_notice(),
{
    out.append(UNKNOWN_NOTICE);
}

/// Appends to `out` the answer to a position at which there is no task.
pub fn print_missing(position: usize, out: &mut String)
    ensures
        final(out)@ == old(out)@ + missing_notice(position as nat),
{
    out.append("Couldn't access item number ");
    push_decimal(out, position);
    out.append("\n");
    assert(out@ =~= old(out)@ + missing_notice(position as nat));
}

/// Appends to `out` the line that shows `item` at the 1-based `position`.
pub fn print_row(position: usize, item: &Item, out: &mut String)
    ensures
        final(out)@ == old(out)@ + row(position as nat, item@),
{
    out.append("  ");
    push_decimal(out, position);
    out.append(". [");
    if item.done {
        out.append(DONE_MARK);
    } else {
        out.append(OPEN_MARK);
    }
    out.append("] ");
    out.append(item.name.as_str());
    out.append("\n");
    assert(out@ =~= old(out)@ + row(position as nat, item@));
}

/// Appends to `out` the header and the line of each task of `list`.
pub fn print_list(list: &Vec<Item>, out: &mut String)
    ensures
        final(out)@ == old(out)@ + listing(list.deep_view()),
{
    let ghost tasks = list.deep_view();
    out.append(LIST_HEADER);
    let mut i: usize = 0;
    while i < list.len()
        invariant
            0 <= i <= list.len(),
            tasks == list.deep_view(),
            out@ == old(out)@ + list_header() + rows(tasks.take(i as int)).flatten(),
        decreases list.len() - i,
    {
        let ghost shown = rows(tasks.take(i as int));
        print_row(i + 1, &list[i], out);
        proof {
            let line = row((i + 1) as nat, tasks[i as int]);
            assert(rows(tasks.take(i + 1)) =~= shown.push(line));
            shown.lemma_flatten_push(line);
            assert(out@ =~= old(out)@ + list_header() + rows(tasks.take(i + 1)).flatten());
        }
        i = i + 1;
    }
    assert(tasks.take(list.len() as int) =~= tasks);
    assert(out@ =~= old(out)@ + listing(tasks));
}

} // verus!
