//! Reading a command from a line of input.
//!
//! A line is the command word, then, after the first space, its argument.
//! Only the first character of the command word counts.

use vstd::prelude::*;
use crate::command::{Command, CommandView};
use crate::decimal::{parse_usize, usize_value};

verus! {

/// The name of a task that was added without one.
pub const EMPTY_NAME: &'static str = "<empty>";

/// The position of the first space of `line`, or the length of `line` where
/// it holds no space.
pub open spec fn first_space(line: Seq<char>) -> int
    decreases line.len(),
{
    if line.len() == 0 || line[0] == ' ' {
        0
    } else {
        1 + first_space(line.drop_first())
    }
}

/// Whether `c` is one of the seven letters that select a command.
pub open spec fn is_command_letter(c: char) -> bool {
    c == 'l' || c == 'h' || c == 'e' || c == 'a' || c == 'r' || c == 'd' || c == 'u'
}

/// The character that selects the command: the first character of the
/// command word, or the null character where that word is empty.
pub open spec fn command_letter(line: Seq<char>) -> char {
    if line.len() > 0 && line[0] != ' ' {
        line[0]
    } else {
        '\0'
    }
}

/// What follows the first space of `line`. It is empty where the line holds
/// no space.
pub open spec fn argument(line: Seq<char>) -> Seq<char> {
    if first_space(line) < line.len() {
        line.skip(first_space(line) + 1)
    } else {
        Seq::empty()
    }
}

/// The argument of `line` as the name of a task: the argument itself, or
/// the placeholder where there is none.
pub open spec fn name_argument(line: Seq<char>) -> Seq<char> {
    if argument(line).len() == 0 {
        EMPTY_NAME@
    } else {
        argument(line)
    }
}

/// The argument of `line` as a position. It is absent where the line has no
/// argument. An argument that is no number, or a number too large for the
/// machine, counts as position 0.
pub open spec fn index_argument(line: Seq<char>) -> Option<nat> {
    if argument(line).len() == 0 {
        None
    } else {
        match usize_value(argument(line)) {
            Some(position) => Some(position as nat),
            None => Some(0),
        }
    }
}

/// The command that `line` stands for.
pub open spec fn parse_line(line: Seq<char>) -> CommandView {
    let letter = command_letter(line);
    if letter == 'l' {
        CommandView::List
    } else if letter == 'h' {
        CommandView::Help
    } else if letter == 'e' {
        CommandView::Exit
    } else if letter == 'a' {
        CommandView::Add(name_argument(line))
    } else if letter == 'r' {
        CommandView::Remove(index_argument(line))
    } else if letter == 'd' {
        CommandView::Done(index_argument(line))
    } else if letter == 'u' {
        CommandView::Undone(index_argument(line))
    } else {
        CommandView::Unknown
    }
}

/// The first space of a line lies within the line or at its end, holds a
/// space unless it is the end, and has no space before it.
pub proof fn lemma_first_space_is_first(line: Seq<char>)
    ensures
        0 <= first_space(line) <= line.len(),
        forall|i: int| 0 <= i < first_space(line) ==> line[i] != ' ',
        first_space(line) < line.len() ==> line[first_space(line)] == ' ',
    decreases line.len(),
{
    if line.len() > 0 && line[0] != ' ' {
        let rest = line.drop_first();
        lemma_first_space_is_first(rest);
        assert forall|i: int| 0 <= i < first_space(line) implies line[i] != ' ' by {
            if i > 0 {
                assert(line[i] == rest[i - 1]);
            }
        }
    }
}

/// No other position is the first space of a line.
pub proof fn lemma_first_space(line: Seq<char>, k: int)
    requires
        0 <= k <= line.len(),
        forall|i: int| 0 <= i < k ==> line[i] != ' ',
        k < line.len() ==> line[k] == ' ',
    ensures
        first_space(line) == k,
    decreases line.len(),
{
    if k > 0 {
        lemma_first_space(line.drop_first(), k - 1);
    }
}

/// The position of the first space of `line`, counted in characters, or the
/// number of its characters where it holds no space.
fn find_space(line: &str, len: usize) -> (k: usize)
    requires
        len == line@.len(),
    ensures
        k == first_space(line@),
        k <= len,
{
    let mut i: usize = 0;
    for c in it: line.chars()
        invariant
            it.seq() == line@,
            len == line@.len(),
            i == it.index(),
            forall|j: int| 0 <= j < i ==> line@[j] != ' ',
    {
        if c == ' ' {
            proof {
                lemma_first_space(line@, i as int);
            }
            return i;
        }
        i = i + 1;
    }
    proof {
        lemma_first_space(line@, i as int);
    }
    i
}

/// Splits `line` into its command letter and its argument.
fn split_line(line: &str) -> (parts: (char, &str))
    ensures
        parts.0 == command_letter(line@),
        parts.1@ == argument(line@),
{
    let len = line.unicode_len();
    let space = find_space(line, len);
    proof {
        lemma_first_space_is_first(line@);
    }
    let letter = if space > 0 {
        line.get_char(0)
    } else {
        '\0'
    };
    let rest = if space < len {
        line.substring_char(space + 1, len)
    } else {
        line.substring_char(len, len)
    };
    (letter, rest)
}

/// The position that `argument` gives, if there is an argument.
fn parse_index(argument: &str) -> (index: Option<usize>)
    ensures
        index == (if argument@.len() == 0 {
            None
        } else {
            match usize_value(argument@) {
                Some(position) => Some(position),
                None => Some(0usize),
            }
        }),
{
    if argument.is_empty() {
        None
    } else {
        match parse_usize(argument) {
            Some(position) => Some(position),
            None => Some(0),
        }
    }
}

/// Reads the command that `line` stands for.
///
/// Every line stands for a command: one that begins with none of the
/// command letters stands for [`Command::Unknown`].
pub fn parse_command(line: &str) -> (command: Command)
    ensures
        command@ == parse_line(line@),
{
    let (letter, argument) = split_line(line);
    if letter == 'l' {
        Command::List
    } else if letter == 'h' {
        Command::Help
    } else if letter == 'e' {
        Command::Exit
    } else if letter == 'a' {
        let name = if argument.is_empty() {
            EMPTY_NAME
        } else {
            argument
        };
        Command::Add(name.to_owned())
    } else if letter == 'r' {
        Command::Remove(parse_index(argument))
    } else if letter == 'd' {
        Command::Done(parse_index(argument))
    } else if letter == 'u' {
        Command::Undone(parse_index(argument))
    } else {
        Command::Unknown
    }
}

} // verus!
