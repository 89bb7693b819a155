use proctime::command::{command_line, SEPARATOR, TERMINATOR};

fn wide(text: &str) -> Vec<u16> {
    text.encode_utf16().collect()
}

fn wide_args(args: &[&str]) -> Vec<Vec<u16>> {
    args.iter().map(|arg| wide(arg)).collect()
}

#[test]
fn command_line_joins_with_single_spaces() {
    let line = command_line(&wide_args(&["echo", "a", "b"]));
    assert_eq!(line, wide("echo a b\0"));
}

#[test]
fn command_line_of_no_argument_is_the_terminator() {
    let line = command_line(&Vec::new());
    assert_eq!(line, vec![0u16]);
}

#[test]
fn command_line_of_one_argument_has_no_separator() {
    let line = command_line(&wide_args(&["notepad"]));
    assert_eq!(line, wide("notepad\0"));
}

#[test]
fn command_line_does_not_quote_or_escape() {
    let line = command_line(&wide_args(&["cmd", "/c", "echo \"a b\"", "c:\\x y"]));
    assert_eq!(line, wide("cmd /c echo \"a b\" c:\\x y\0"));
}

#[test]
fn command_line_ends_with_exactly_one_terminator() {
    let line = command_line(&wide_args(&["a", "b"]));
    assert_eq!(line.last(), Some(&TERMINATOR));
    assert_eq!(line.iter().filter(|unit| **unit == TERMINATOR).count(), 1);
    assert_eq!(line.iter().filter(|unit| **unit == SEPARATOR).count(), 1);
}

#[test]
fn command_line_keeps_a_separator_after_a_leading_empty_argument() {
    let line = command_line(&wide_args(&["", "a"]));
    assert_eq!(line, wide(" a\0"));
    assert_eq!(line.len(), 3);
    let line = command_line(&wide_args(&["", "", "a", "b"]));
    assert_eq!(line, wide("  a b\0"));
}

#[test]
fn command_line_of_empty_arguments_is_their_separators() {
    assert_eq!(command_line(&wide_args(&[""])), wide("\0"));
    assert_eq!(command_line(&wide_args(&["", ""])), wide(" \0"));
    assert_eq!(command_line(&wide_args(&["", "", ""])), wide("  \0"));
}

#[test]
fn command_line_is_as_long_as_its_arguments_and_separators() {
    let lists: [&[&str]; 6] =
        [&[], &["a"], &["echo", "a", "b"], &["", "a"], &["a", "", ""], &["", "", "xyz", ""]];
    for list in lists {
        let args = wide_args(list);
        let units: usize = args.iter().map(|arg| arg.len()).sum();
        let line = command_line(&args);
        assert_eq!(line.len(), units + args.len().saturating_sub(1) + 1);
    }
}

#[test]
fn command_line_holds_each_argument_at_its_place() {
    let args = wide_args(&["cmd", "", "/c", "dir"]);
    let line = command_line(&args);
    let mut place = 0;
    for (i, arg) in args.iter().enumerate() {
        if i > 0 {
            assert_eq!(line[place], SEPARATOR);
            place += 1;
        }
        assert_eq!(&line[place..place + arg.len()], arg.as_slice());
        place += arg.len();
    }
    assert_eq!(line[place], TERMINATOR);
    assert_eq!(place + 1, line.len());
}

#[test]
fn command_line_keeps_a_separator_for_a_later_empty_argument() {
    let line = command_line(&wide_args(&["a", "", "b"]));
    assert_eq!(line, wide("a  b\0"));
    let line = command_line(&wide_args(&["a", ""]));
    assert_eq!(line, wide("a \0"));
}

#[test]
fn command_line_keeps_units_that_are_no_text() {
    let lone_surrogate: Vec<u16> = vec![0xD800];
    let line = command_line(&vec![wide("x"), lone_surrogate]);
    assert_eq!(line, vec![0x78, 0x20, 0xD800, 0]);
}

#[test]
fn command_line_keeps_characters_outside_the_basic_plane() {
    let line = command_line(&wide_args(&["say", "\u{1F600}"]));
    assert_eq!(line, wide("say \u{1F600}\0"));
    assert_eq!(line.len(), 7);
}
