use tasklist::command::Command;
use tasklist::executor::{execute_command_by_name, execute_command_by_type};
use tasklist::item::Item;
use tasklist::parser::parse_command;
use tasklist::text::{print_help, HELP_SCREEN, LIST_HEADER, UNKNOWN_NOTICE};

fn run(line: &str, list: &mut Vec<Item>) -> (bool, String) {
    let mut out = String::new();
    let stop = execute_command_by_name(&String::from(line), list, &mut out);
    (stop, out)
}

fn task(name: &str, done: bool) -> Item {
    Item { name: String::from(name), done }
}

fn three_tasks() -> Vec<Item> {
    vec![task("milk", false), task("bread", false), task("tea", false)]
}

#[test]
fn new_task_is_not_completed() {
    assert_eq!(Item::new(String::from("milk")), task("milk", false));
}

#[test]
fn added_tasks_are_listed_in_the_order_added() {
    let mut list = Vec::new();
    assert_eq!(run("add milk", &mut list), (false, String::new()));
    assert_eq!(run("add walk the dog", &mut list), (false, String::new()));
    assert_eq!(run("a tea", &mut list), (false, String::new()));
    assert_eq!(list, vec![task("milk", false), task("walk the dog", false), task("tea", false)]);
    let (stop, out) = run("list", &mut list);
    assert!(!stop);
    assert_eq!(out, "TODO list: \n  1. [ ] milk\n  2. [ ] walk the dog\n  3. [ ] tea\n");
}

#[test]
fn empty_list_shows_the_header_only() {
    let mut list = Vec::new();
    assert_eq!(run("list", &mut list), (false, String::from("TODO list: \n")));
    assert_eq!(LIST_HEADER, "TODO list: \n");
    assert!(list.is_empty());
}

#[test]
fn listing_numbers_past_nine_in_decimal() {
    let mut list = Vec::new();
    for i in 0..12 {
        run(&format!("add t{i}"), &mut list);
    }
    let (_, out) = run("l", &mut list);
    let lines: Vec<&str> = out.lines().collect();
    assert_eq!(lines.len(), 13);
    assert_eq!(lines[9], "  9. [ ] t8");
    assert_eq!(lines[10], "  10. [ ] t9");
    assert_eq!(lines[12], "  12. [ ] t11");
}

#[test]
fn done_marks_exactly_the_given_position() {
    let mut list = three_tasks();
    assert_eq!(run("done 2", &mut list), (false, String::new()));
    assert_eq!(list, vec![task("milk", false), task("bread", true), task("tea", false)]);
    let (_, out) = run("list", &mut list);
    assert_eq!(out, "TODO list: \n  1. [ ] milk\n  2. [x] bread\n  3. [ ] tea\n");
}

#[test]
fn undone_reverts_done() {
    let mut list = three_tasks();
    run("done 2", &mut list);
    assert_eq!(run("undone 2", &mut list), (false, String::new()));
    assert_eq!(list, three_tasks());
    let (_, out) = run("list", &mut list);
    assert_eq!(out, "TODO list: \n  1. [ ] milk\n  2. [ ] bread\n  3. [ ] tea\n");
}

#[test]
fn done_then_undone_twice_is_the_same_as_once() {
    let mut once = three_tasks();
    run("done 3", &mut once);
    run("undone 3", &mut once);
    let mut twice = three_tasks();
    run("done 3", &mut twice);
    run("undone 3", &mut twice);
    run("done 3", &mut twice);
    run("undone 3", &mut twice);
    assert_eq!(once, twice);
    assert_eq!(once, three_tasks());
}

#[test]
fn done_twice_is_the_same_as_once() {
    let mut list = three_tasks();
    run("done 1", &mut list);
    run("done 1", &mut list);
    assert_eq!(list, vec![task("milk", true), task("bread", false), task("tea", false)]);
}

#[test]
fn remove_shrinks_the_list_and_renumbers() {
    let mut list = vec![task("first", false), task("second", true)];
    assert_eq!(run("remove 1", &mut list), (false, String::new()));
    assert_eq!(list, vec![task("second", true)]);
    let (_, out) = run("list", &mut list);
    assert_eq!(out, "TODO list: \n  1. [x] second\n");
}

#[test]
fn remove_in_the_middle_keeps_the_order_of_the_rest() {
    let mut list = three_tasks();
    run("r 2", &mut list);
    assert_eq!(list, vec![task("milk", false), task("tea", false)]);
    run("r 2", &mut list);
    assert_eq!(list, vec![task("milk", false)]);
    run("r 1", &mut list);
    assert!(list.is_empty());
}

#[test]
fn done_out_of_range_is_reported_and_changes_nothing() {
    let mut list = three_tasks();
    let (stop, out) = run("done 99", &mut list);
    assert!(!stop);
    assert_eq!(out, "Couldn't access item number 99\n");
    assert_eq!(list, three_tasks());
    let (stop, out) = run("undone 4", &mut list);
    assert!(!stop);
    assert_eq!(out, "Couldn't access item number 4\n");
    assert_eq!(list, three_tasks());
}

#[test]
fn position_zero_is_out_of_range_for_marking() {
    let mut list = three_tasks();
    assert_eq!(run("done 0", &mut list), (false, String::from("Couldn't access item number 0\n")));
    assert_eq!(run("undone abc", &mut list), (false, String::from("Couldn't access item number 0\n")));
    assert_eq!(list, three_tasks());
}

#[test]
fn remove_out_of_range_is_fatal() {
    let list = three_tasks();
    assert!(parse_command("remove 99").is_fatal(list.len()));
    assert!(parse_command("remove 4").is_fatal(list.len()));
    assert!(parse_command("remove 0").is_fatal(list.len()));
    assert!(parse_command("remove abc").is_fatal(list.len()));
    assert!(parse_command("remove 1").is_fatal(0));
}

#[test]
fn no_other_command_is_fatal() {
    let list = three_tasks();
    for line in ["remove 1", "remove 3", "remove", "done 99", "undone 0", "add x", "list", "help", "exit", "?"] {
        assert!(!parse_command(line).is_fatal(list.len()), "{line}");
    }
}

#[test]
fn add_without_a_name_adds_the_placeholder() {
    let mut list = Vec::new();
    assert_eq!(run("add", &mut list), (false, String::new()));
    assert_eq!(list, vec![task("<empty>", false)]);
    let (_, out) = run("list", &mut list);
    assert_eq!(out, "TODO list: \n  1. [ ] <empty>\n");
}

#[test]
fn unknown_input_is_answered_and_changes_nothing() {
    for line in ["x", "", "quit", "42", " list", "LIST", "?"] {
        let mut list = three_tasks();
        let (stop, out) = run(line, &mut list);
        assert!(!stop, "{line}");
        assert_eq!(out, "\nI don't know this command yet!\nType \"help\" to see usage\n", "{line}");
        assert_eq!(list, three_tasks(), "{line}");
    }
    assert_eq!(UNKNOWN_NOTICE, "\nI don't know this command yet!\nType \"help\" to see usage\n");
}

#[test]
fn missing_position_shows_help_and_changes_nothing() {
    for line in ["remove", "done", "undone", "r", "d", "u"] {
        let mut list = three_tasks();
        let (stop, out) = run(line, &mut list);
        assert!(!stop, "{line}");
        assert_eq!(out, HELP_SCREEN, "{line}");
        assert_eq!(list, three_tasks(), "{line}");
    }
}

#[test]
fn help_shows_the_usage_text() {
    let expected = "TODO app

Usage: 
    list            list items
    add <name>      add new item with given <name>
    remove <index>  remove item at <index>
    done <index>    mark item at <index> as done
    undone <index>  mark item at <index> as undone
    help            display this help screen
    exit            exit program

You can also use just first letter of the command, like 'h' for help or 'l' for list

";
    let mut list = three_tasks();
    assert_eq!(run("help", &mut list), (false, String::from(expected)));
    assert_eq!(list, three_tasks());
    let mut out = String::new();
    print_help(&mut out);
    assert_eq!(out, expected);
}

#[test]
fn exit_stops_the_loop_and_shows_nothing() {
    let mut list = three_tasks();
    assert_eq!(run("exit", &mut list), (true, String::new()));
    assert_eq!(run("e", &mut list), (true, String::new()));
    assert_eq!(list, three_tasks());
}

#[test]
fn output_is_appended_to_what_was_shown_before() {
    let mut list = three_tasks();
    let mut out = String::from("> ");
    let stop = execute_command_by_type(&Command::Done(Some(7)), &mut list, &mut out);
    assert!(!stop);
    assert_eq!(out, "> Couldn't access item number 7\n");
    execute_command_by_type(&Command::List, &mut list, &mut out);
    assert_eq!(
        out,
        "> Couldn't access item number 7\nTODO list: \n  1. [ ] milk\n  2. [ ] bread\n  3. [ ] tea\n"
    );
}

#[test]
fn commands_apply_by_type() {
    let mut list = Vec::new();
    let mut out = String::new();
    assert!(!execute_command_by_type(&Command::Add(String::from("a")), &mut list, &mut out));
    assert!(!execute_command_by_type(&Command::Add(String::from("b")), &mut list, &mut out));
    assert!(!execute_command_by_type(&Command::Done(Some(2)), &mut list, &mut out));
    assert!(!execute_command_by_type(&Command::Remove(Some(1)), &mut list, &mut out));
    assert!(!execute_command_by_type(&Command::Undone(None), &mut list, &mut out));
    assert!(!execute_command_by_type(&Command::Unknown, &mut list, &mut out));
    assert!(execute_command_by_type(&Command::Exit, &mut list, &mut out));
    assert_eq!(list, vec![task("b", true)]);
    assert_eq!(out, format!("{HELP_SCREEN}{UNKNOWN_NOTICE}"));
}

#[test]
fn names_keep_their_characters() {
    let mut list = Vec::new();
    run("add žluťoučký kůň 🐎", &mut list);
    run("done 1", &mut list);
    let (_, out) = run("list", &mut list);
    assert_eq!(out, "TODO list: \n  1. [x] žluťoučký kůň 🐎\n");
}
