//! What holds of the task list whatever the user types.
//!
//! Each statement here is over the models that the contracts of the parser
//! and of the executor use, so it holds of every run of the compiled code.

use vstd::prelude::*;
use crate::command::CommandView;
use crate::decimal::{decimal, lemma_decimal_round_trip};
use crate::executor::{in_range, is_fatal, next_tasks, output_of, terminates};
use crate::item::ItemView;
use crate::parser::{
    argument, command_letter, is_command_letter, lemma_first_space, parse_line, EMPTY_NAME,
};
use crate::text::{help_screen, list_header, missing_notice, row, rows, unknown_notice};

verus! {

/// The task list after each of `lines` was read and applied in turn to
/// `tasks`, as the command loop does with the lines that it is given.
pub open spec fn replay(lines: Seq<Seq<char>>, tasks: Seq<ItemView>) -> Seq<ItemView>
    decreases lines.len(),
{
    if lines.len() == 0 {
        tasks
    } else {
        next_tasks(parse_line(lines.last()), replay(lines.drop_last(), tasks))
    }
}

/// Tasks of the given names, in their order, none of them completed.
pub open spec fn fresh_tasks(names: Seq<Seq<char>>) -> Seq<ItemView> {
    Seq::new(names.len(), |i: int| ItemView { name: names[i], done: false })
}

/// The line of the listing that shows a task of name `name` at the 1-based
/// `position`, with `mark` between the brackets.
pub open spec fn row_text(position: nat, mark: char, name: Seq<char>) -> Seq<char> {
    seq![' ', ' '] + decimal(position) + seq!['.', ' ', '[', mark, ']', ' '] + name + seq!['\n']
}

/// A listed task is shown as two blanks, its position, a dot, its mark in
/// brackets and its name: the mark is `x` for a completed task and a blank
/// for any other.
pub proof fn lemma_row_text(position: nat, item: ItemView)
    ensures
        row(position, item) == row_text(position, if item.done { 'x' } else { ' ' }, item.name),
{
    reveal_strlit("x");
    reveal_strlit(" ");
    reveal_strlit("  ");
    reveal_strlit(". [");
    reveal_strlit("] ");
    reveal_strlit("\n");
    assert("x"@ =~= seq!['x']);
    assert(" "@ =~= seq![' ']);
    assert("  "@ =~= seq![' ', ' ']);
    assert(". ["@ =~= seq!['.', ' ', '[']);
    assert("] "@ =~= seq![']', ' ']);
    assert("\n"@ =~= seq!['\n']);
    assert(row(position, item) =~= row_text(
        position,
        if item.done { 'x' } else { ' ' },
        item.name,
    ));
}

/// A line made of a command word without a space, one space, and more text
/// has the first character of the word as its command letter and that text
/// as its argument.
pub proof fn lemma_word_and_argument(word: Seq<char>, rest: Seq<char>)
    requires
        word.len() > 0,
        forall|i: int| 0 <= i < word.len() ==> word[i] != ' ',
    ensures
        command_letter(word + seq![' '] + rest) == word[0],
        argument(word + seq![' '] + rest) == rest,
{
    let line = word + seq![' '] + rest;
    lemma_first_space(line, word.len() as int);
    assert(line.skip(word.len() as int + 1) =~= rest);
}

/// A line made of a command word without a space and nothing else has the
/// first character of the word as its command letter and no argument.
pub proof fn lemma_word_alone(word: Seq<char>)
    requires
        word.len() > 0,
        forall|i: int| 0 <= i < word.len() ==> word[i] != ' ',
    ensures
        command_letter(word) == word[0],
        argument(word) == Seq::<char>::empty(),
{
    lemma_first_space(word, word.len() as int);
}

/// A line made of a word that begins with `a`, one space, and a name adds
/// a task of that name, whatever else the word and the name hold.
pub proof fn lemma_add_line(word: Seq<char>, name: Seq<char>)
    requires
        word.len() > 0,
        word[0] == 'a',
        forall|i: int| 0 <= i < word.len() ==> word[i] != ' ',
        name.len() > 0,
    ensures
        parse_line(word + seq![' '] + name) == CommandView::Add(name),
{
    lemma_word_and_argument(word, name);
}

/// A line made of a word that begins with `r`, `d` or `u`, one space, and
/// a position written in decimal removes, marks or unmarks at that
/// position, as long as the machine can hold the position.
pub proof fn lemma_position_line(word: Seq<char>, position: nat)
    requires
        word.len() > 0,
        forall|i: int| 0 <= i < word.len() ==> word[i] != ' ',
        position <= usize::MAX,
    ensures
        ({
            let line = word + seq![' '] + decimal(position);
            &&& word[0] == 'r' ==> parse_line(line) == CommandView::Remove(Some(position))
            &&& word[0] == 'd' ==> parse_line(line) == CommandView::Done(Some(position))
            &&& word[0] == 'u' ==> parse_line(line) == CommandView::Undone(Some(position))
        }),
{
    lemma_word_and_argument(word, decimal(position));
    lemma_decimal_round_trip(position);
}

/// Tasks that are added one after the other to an empty list are listed in
/// the order in which they were added, numbered from 1, none of them marked
/// as completed.
pub proof fn lemma_added_tasks_are_listed_in_order(lines: Seq<Seq<char>>, names: Seq<Seq<char>>)
    requires
        lines.len() == names.len(),
        forall|i: int|
            0 <= i < lines.len() ==> parse_line(#[trigger] lines[i]) == CommandView::Add(
                names[i],
            ),
    ensures
        replay(lines, Seq::empty()) == fresh_tasks(names),
        output_of(CommandView::List, replay(lines, Seq::empty())) == list_header() + Seq::new(
            names.len(),
            |i: int| row_text((i + 1) as nat, ' ', names[i]),
        ).flatten(),
    decreases lines.len(),
{
    if lines.len() == 0 {
        assert(replay(lines, Seq::empty()) =~= fresh_tasks(names));
    } else {
        lemma_added_tasks_are_listed_in_order(lines.drop_last(), names.drop_last());
        assert(fresh_tasks(names.drop_last()).push(ItemView { name: names.last(), done: false })
            =~= fresh_tasks(names));
    }
    let tasks = fresh_tasks(names);
    let shown = Seq::new(names.len(), |i: int| row_text((i + 1) as nat, ' ', names[i]));
    assert forall|i: int| 0 <= i < names.len() implies rows(tasks)[i] == shown[i] by {
        lemma_row_text((i + 1) as nat, tasks[i]);
    }
    assert(rows(tasks) =~= shown);
}

/// Marking the task at a position as completed changes the mark of the line
/// at that position to `x` and no other line of the listing.
pub proof fn lemma_done_marks_one_row(position: nat, tasks: Seq<ItemView>)
    requires
        in_range(position, tasks.len()),
    ensures
        ({
            let after = next_tasks(CommandView::Done(Some(position)), tasks);
            &&& rows(after).len() == rows(tasks).len()
            &&& rows(after)[position - 1] == row_text(position, 'x', tasks[position - 1].name)
            &&& forall|i: int|
                0 <= i < tasks.len() && i != position - 1 ==> rows(after)[i] == rows(tasks)[i]
        }),
{
    let after = next_tasks(CommandView::Done(Some(position)), tasks);
    lemma_row_text(position, after[position - 1]);
}

/// Marking the task at a position as not completed changes the mark of the
/// line at that position to a blank and no other line of the listing.
pub proof fn lemma_undone_clears_one_row(position: nat, tasks: Seq<ItemView>)
    requires
        in_range(position, tasks.len()),
    ensures
        ({
            let after = next_tasks(CommandView::Undone(Some(position)), tasks);
            &&& rows(after).len() == rows(tasks).len()
            &&& rows(after)[position - 1] == row_text(position, ' ', tasks[position - 1].name)
            &&& forall|i: int|
                0 <= i < tasks.len() && i != position - 1 ==> rows(after)[i] == rows(tasks)[i]
        }),
{
    let after = next_tasks(CommandView::Undone(Some(position)), tasks);
    lemma_row_text(position, after[position - 1]);
}

/// Marking a task as completed and then as not completed leaves it not
/// completed and the rest of the list as it was. So it brings back a list
/// in which the task was not completed, and doing both again changes
/// nothing more.
pub proof fn lemma_done_then_undone(position: nat, tasks: Seq<ItemView>)
    requires
        in_range(position, tasks.len()),
    ensures
        ({
            let done = CommandView::Done(Some(position));
            let undone = CommandView::Undone(Some(position));
            let once = next_tasks(undone, next_tasks(done, tasks));
            &&& once == tasks.update(position - 1, tasks[position - 1].marked(false))
            &&& !tasks[position - 1].done ==> once == tasks
            &&& next_tasks(undone, next_tasks(done, once)) == once
        }),
{
    let done = CommandView::Done(Some(position));
    let undone = CommandView::Undone(Some(position));
    let once = next_tasks(undone, next_tasks(done, tasks));
    assert(once =~= tasks.update(position - 1, tasks[position - 1].marked(false)));
    assert(next_tasks(undone, next_tasks(done, once)) =~= once);
    if !tasks[position - 1].done {
        assert(once =~= tasks);
    }
}

/// Marking a task twice in the same way is the same as marking it once.
pub proof fn lemma_marking_is_idempotent(position: nat, tasks: Seq<ItemView>)
    ensures
        ({
            let done = CommandView::Done(Some(position));
            next_tasks(done, next_tasks(done, tasks)) == next_tasks(done, tasks)
        }),
        ({
            let undone = CommandView::Undone(Some(position));
            next_tasks(undone, next_tasks(undone, tasks)) == next_tasks(undone, tasks)
        }),
{
    let done = CommandView::Done(Some(position));
    let undone = CommandView::Undone(Some(position));
    assert(next_tasks(done, next_tasks(done, tasks)) =~= next_tasks(done, tasks));
    assert(next_tasks(undone, next_tasks(undone, tasks)) =~= next_tasks(undone, tasks));
}

/// Removing the task at a position makes the list one shorter: the tasks
/// before the position stay where they are, and each task after it moves
/// up by one and is listed under the number one less than before.
pub proof fn lemma_remove_renumbers(position: nat, tasks: Seq<ItemView>)
    requires
        in_range(position, tasks.len()),
    ensures
        ({
            let command = CommandView::Remove(Some(position));
            let after = next_tasks(command, tasks);
            &&& !is_fatal(command, tasks.len())
            &&& after.len() == tasks.len() - 1
            &&& forall|i: int| 0 <= i < position - 1 ==> after[i] == tasks[i]
            &&& forall|i: int| position - 1 <= i < after.len() ==> after[i] == tasks[i + 1]
            &&& forall|i: int|
                position - 1 <= i < after.len() ==> rows(after)[i] == row(
                    (i + 1) as nat,
                    tasks[i + 1],
                )
            &&& output_of(command, tasks) == Seq::<char>::empty()
        }),
{
}

/// Marking a task at a position where there is none leaves the list as it
/// is and shows the notice that names the position.
pub proof fn lemma_mark_out_of_range(position: nat, tasks: Seq<ItemView>)
    requires
        !in_range(position, tasks.len()),
    ensures
        next_tasks(CommandView::Done(Some(position)), tasks) == tasks,
        next_tasks(CommandView::Undone(Some(position)), tasks) == tasks,
        output_of(CommandView::Done(Some(position)), tasks) == missing_notice(position),
        output_of(CommandView::Undone(Some(position)), tasks) == missing_notice(position),
        !is_fatal(CommandView::Done(Some(position)), tasks.len()),
        !is_fatal(CommandView::Undone(Some(position)), tasks.len()),
{
}

/// Removing at a position where there is no task is fatal, and nothing
/// else is.
pub proof fn lemma_fatal_commands(command: CommandView, position: nat, len: nat)
    ensures
        is_fatal(CommandView::Remove(Some(position)), len) <==> !(1 <= position <= len),
        is_fatal(command, len) ==> command is Remove,
{
}

/// A line that adds a task and gives no name adds a task named `<empty>`.
pub proof fn lemma_add_without_name(line: Seq<char>, tasks: Seq<ItemView>)
    requires
        command_letter(line) == 'a',
        argument(line).len() == 0,
    ensures
        parse_line(line) == CommandView::Add(EMPTY_NAME@),
        EMPTY_NAME@ == seq!['<', 'e', 'm', 'p', 't', 'y', '>'],
        next_tasks(parse_line(line), tasks) == tasks.push(
            ItemView { name: EMPTY_NAME@, done: false },
        ),
{
    reveal_strlit("<empty>");
    assert(EMPTY_NAME@ =~= seq!['<', 'e', 'm', 'p', 't', 'y', '>']);
}

/// A line that is empty or begins with a character other than the seven
/// command letters is answered with the notice for an unknown command and
/// changes nothing.
pub proof fn lemma_unknown_line(line: Seq<char>, tasks: Seq<ItemView>)
    requires
        line.len() == 0 || !is_command_letter(line[0]),
    ensures
        parse_line(line) == CommandView::Unknown,
        output_of(parse_line(line), tasks) == unknown_notice(),
        next_tasks(parse_line(line), tasks) == tasks,
        !terminates(parse_line(line)),
        !is_fatal(parse_line(line), tasks.len()),
{
}

/// A line that removes or marks a task and gives no position is answered
/// with the usage text and changes nothing.
pub proof fn lemma_missing_position_shows_help(line: Seq<char>, tasks: Seq<ItemView>)
    requires
        command_letter(line) == 'r' || command_letter(line) == 'd' || command_letter(line) == 'u',
        argument(line).len() == 0,
    ensures
        output_of(parse_line(line), tasks) == help_screen(),
        next_tasks(parse_line(line), tasks) == tasks,
        !terminates(parse_line(line)),
        !is_fatal(parse_line(line), tasks.len()),
{
}

/// Only a line whose command letter is `e` ends the command loop, and it
/// shows nothing and changes nothing.
pub proof fn lemma_only_exit_terminates(line: Seq<char>, tasks: Seq<ItemView>)
    ensures
        terminates(parse_line(line)) <==> command_letter(line) == 'e',
        terminates(parse_line(line)) ==> {
            &&& next_tasks(parse_line(line), tasks) == tasks
            &&& output_of(parse_line(line), tasks) == Seq::<char>::empty()
        },
{
}

} // verus!
