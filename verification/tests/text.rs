use tasklist::decimal::push_decimal;
use tasklist::item::Item;
use tasklist::normalize::{normalize, trim};
use tasklist::text::{print_list, print_missing, print_row, print_unknown, DONE_MARK, OPEN_MARK};

#[test]
fn decimal_notation_is_that_of_the_standard_library() {
    for n in [0usize, 1, 7, 9, 10, 11, 99, 100, 101, 907, 1000, 65535, 4294967295, usize::MAX - 1, usize::MAX] {
        let mut out = String::new();
        push_decimal(&mut out, n);
        assert_eq!(out, n.to_string());
    }
}

#[test]
fn decimal_notation_is_appended() {
    let mut out = String::from("n=");
    push_decimal(&mut out, 120);
    assert_eq!(out, "n=120");
}

#[test]
fn row_shows_position_mark_and_name() {
    assert_eq!(DONE_MARK, "x");
    assert_eq!(OPEN_MARK, " ");
    let mut out = String::new();
    print_row(3, &Item { name: String::from("tea"), done: true }, &mut out);
    assert_eq!(out, "  3. [x] tea\n");
    let mut out = String::new();
    print_row(12, &Item { name: String::from(""), done: false }, &mut out);
    assert_eq!(out, "  12. [ ] \n");
}

#[test]
fn list_is_header_and_rows() {
    let list = vec![
        Item { name: String::from("a"), done: false },
        Item { name: String::from("b"), done: true },
    ];
    let mut out = String::new();
    print_list(&list, &mut out);
    assert_eq!(out, "TODO list: \n  1. [ ] a\n  2. [x] b\n");
}

#[test]
fn notices_have_their_exact_text() {
    let mut out = String::new();
    print_missing(99, &mut out);
    assert_eq!(out, "Couldn't access item number 99\n");
    let mut out = String::new();
    print_unknown(&mut out);
    assert_eq!(out, "\nI don't know this command yet!\nType \"help\" to see usage\n");
}

#[test]
fn trim_strips_what_the_standard_library_strips() {
    let texts = [
        "", " ", "   ", "a", " a", "a ", "  a b  ", "\t\r\n a \n", "\u{a0}x\u{3000}", "\u{2003}é \u{2028}",
        "\u{200b}zero width\u{200b}", "x\u{85}", "\u{1680}\u{2000}\u{200a}\u{202f}\u{205f}ok", " 🐎 ", "\u{feff}bom",
        "\u{180e}mongolian", "\x0b\x0cform\x1c\x1f",
    ];
    for text in texts {
        assert_eq!(trim(text), text.trim(), "{text:?}");
    }
}

#[test]
fn normalize_trims_and_lowers() {
    assert_eq!(normalize("  \tAdd Milk \n"), "add milk");
    assert_eq!(normalize("LIST"), "list");
    assert_eq!(normalize("list\n"), "list");
    assert_eq!(normalize("   "), "");
    assert_eq!(normalize("Done 2\r\n"), "done 2");
    assert_eq!(normalize(" ÀB "), "àb");
}
