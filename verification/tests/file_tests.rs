use modal_edit::file::{split_lines, FileBuffer};
use modal_edit::mode::{State, MODE};

fn doc(lines: &[&str]) -> Vec<Vec<char>> {
    lines.iter().map(|l| l.chars().collect()).collect()
}

fn chars(s: &str) -> Vec<char> {
    s.chars().collect()
}

#[test]
fn test_read_write_contents() {
    let mut buf = FileBuffer::from_lines(Vec::new(), String::from("test.txt"));
    let target = doc(&["new string"]);
    buf.update_contents(target);
    let expected = doc(&["new string"]);
    assert_eq!(buf.get_contents(), expected);
}

#[test]
fn test_get_set_readonly() {
    let mut buf = FileBuffer::from_lines(Vec::new(), String::from("test.txt"));
    buf.set_read_only(true);
    assert!(buf.get_read_only());
    buf.set_read_only(false);
    assert!(!buf.get_read_only());
}

#[test]
fn test_save_file() {
    // the text that saving writes: every line followed by a line break, and
    // re-reading that text restores the same contents
    let mut buf = FileBuffer::from_lines(Vec::new(), String::from("test.txt"));
    let src = doc(&["new string2"]);
    buf.update_contents(src);
    let expected = doc(&["new string2"]);
    assert_eq!(buf.get_contents(), expected);
    let written = buf.to_text();
    assert_eq!(written, chars("new string2\n"));
    let reread = split_lines(&written);
    assert_eq!(reread, expected);
}

#[test]
fn test_get_length() {
    let mut buf = FileBuffer::from_lines(Vec::new(), String::from("test.txt"));
    let src = doc(&["1234567890", "2234567890", "", "3234567890"]);
    buf.update_contents(src);
    assert_eq!(buf.get_row_length(), 4);
    assert_eq!(buf.get_col_length(0), 10);
    assert_eq!(buf.get_col_length(1), 10);
    assert_eq!(buf.get_col_length(2), 0);
    assert_eq!(buf.get_col_length(3), 10);
}

#[test]
fn col_length_out_of_range_is_zero() {
    let buf = FileBuffer::from_lines(doc(&["abc"]), String::new());
    assert_eq!(buf.get_col_length(5), 0);
}

#[test]
fn split_lines_matches_line_semantics() {
    assert_eq!(split_lines(&chars("")), Vec::<Vec<char>>::new());
    assert_eq!(split_lines(&chars("a")), doc(&["a"]));
    assert_eq!(split_lines(&chars("a\n")), doc(&["a"]));
    assert_eq!(split_lines(&chars("a\nb")), doc(&["a", "b"]));
    assert_eq!(split_lines(&chars("a\n\nb\n")), doc(&["a", "", "b"]));
    assert_eq!(split_lines(&chars("a\r\nb")), doc(&["a", "b"]));
    assert_eq!(split_lines(&chars("\n")), doc(&[""]));
}

#[test]
fn to_text_round_trips_through_split_lines() {
    let original = doc(&["alpha", "", "gamma"]);
    let buf = FileBuffer::from_lines(original.clone(), String::new());
    let text = buf.to_text();
    assert_eq!(text, chars("alpha\n\ngamma\n"));
    assert_eq!(split_lines(&text), original);
}

#[test]
fn change_file_takes_over_every_field() {
    let mut buf = FileBuffer::from_lines(doc(&["old"]), String::from("old.txt"));
    let mut newer = FileBuffer::from_lines(doc(&["new"]), String::from("new.txt"));
    newer.set_read_only(true);
    buf.change_file(newer);
    assert_eq!(buf.get_contents(), doc(&["new"]));
    assert_eq!(buf.get_path(), "new.txt");
    assert!(buf.get_read_only());
}

#[test]
fn line_count_counts_lines() {
    let buf = FileBuffer::from_lines(doc(&["a", "b", "c"]), String::new());
    assert_eq!(buf.line_count(), 3);
    assert_eq!(buf.get_row_length(), 3);
}

#[test]
fn state_starts_normal_and_changes_mode() {
    let mut st = State::new();
    assert_eq!(st.check_mode(), MODE::Normal);
    assert!(!st.get_read_only());
    st.change_mode(MODE::Insert);
    assert_eq!(st.check_mode(), MODE::Insert);
    st.set_read_only(true);
    assert!(st.get_read_only());
    assert_eq!(st.check_mode(), MODE::Insert);
    st.mode_manager();
}
