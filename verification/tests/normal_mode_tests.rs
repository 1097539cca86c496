use modal_edit::coordinate::Point;
use modal_edit::edit::{Undo, Yank};
use modal_edit::file::FileBuffer;
use modal_edit::key::KeyCode;
use modal_edit::mode::MODE;
use modal_edit::normal::Normal;
use modal_edit::viewport::Viewport;

fn doc(lines: &[&str]) -> Vec<Vec<char>> {
    lines.iter().map(|l| l.chars().collect()).collect()
}

struct Session {
    display: Viewport,
    buf: FileBuffer,
    undo: Undo,
    yank: Yank,
}

fn session(lines: &[&str]) -> Session {
    Session {
        display: Viewport::new(Point { column: 80, row: 24 }),
        buf: FileBuffer::from_lines(doc(lines), String::new()),
        undo: Undo::new(),
        yank: Yank::new(),
    }
}

impl Session {
    fn key(&mut self, c: char) -> MODE {
        Normal::proc_normal(
            KeyCode::Char(c),
            &mut self.display,
            &mut self.buf,
            &mut self.undo,
            &mut self.yank,
        )
    }
}

#[test]
fn mode_keys_change_mode() {
    let mut s = session(&["abc"]);
    assert_eq!(s.key(':'), MODE::Command);
    assert_eq!(s.key('i'), MODE::Insert);
    assert_eq!(s.key('v'), MODE::Visual);
    assert_eq!(s.key('/'), MODE::Search);
    assert_eq!(s.key('?'), MODE::Normal);
}

#[test]
fn insert_variants_position_the_cursor() {
    let mut s = session(&["abcdef"]);
    s.key('l');
    s.key('l');
    assert_eq!(s.display.get_cursor_coordinate(), Point { column: 2, row: 0 });
    assert_eq!(s.key('I'), MODE::Insert);
    assert_eq!(s.display.get_cursor_coordinate(), Point { column: 0, row: 0 });
    assert_eq!(s.key('A'), MODE::Insert);
    assert_eq!(s.display.get_cursor_coordinate(), Point { column: 6, row: 0 });
    let mut s = session(&["abcdef"]);
    assert_eq!(s.key('a'), MODE::Insert);
    assert_eq!(s.display.get_cursor_coordinate(), Point { column: 1, row: 0 });
}

#[test]
fn movement_keys_move_the_cursor() {
    let mut s = session(&["abc", "def"]);
    assert_eq!(s.key('j'), MODE::Normal);
    assert_eq!(s.display.get_cursor_coordinate(), Point { column: 0, row: 1 });
    s.key('l');
    assert_eq!(s.display.get_cursor_coordinate(), Point { column: 1, row: 1 });
    s.key('k');
    assert_eq!(s.display.get_cursor_coordinate(), Point { column: 1, row: 0 });
    s.key('h');
    assert_eq!(s.display.get_cursor_coordinate(), Point { column: 0, row: 0 });
}

#[test]
fn x_deletes_under_cursor_and_u_undoes() {
    let mut s = session(&["abc"]);
    s.key('l');
    assert_eq!(s.key('x'), MODE::Normal);
    assert_eq!(s.buf.get_contents(), doc(&["ac"]));
    assert_eq!(s.key('u'), MODE::Normal);
    assert_eq!(s.buf.get_contents(), doc(&["abc"]));
    // redo applies the deletion again
    assert_eq!(s.key('r'), MODE::Normal);
    assert_eq!(s.buf.get_contents(), doc(&["ac"]));
}

#[test]
fn x_at_line_end_joins_lines() {
    let mut s = session(&["ab", "cd"]);
    s.key('l');
    s.key('l');
    assert_eq!(s.display.get_cursor_coordinate(), Point { column: 2, row: 0 });
    s.key('x');
    assert_eq!(s.buf.get_contents(), doc(&["abcd"]));
    s.key('u');
    assert_eq!(s.buf.get_contents(), doc(&["ab", "cd"]));
}

#[test]
fn yank_and_paste_duplicate_a_line() {
    let mut s = session(&["first", "second"]);
    assert_eq!(s.key('y'), MODE::Normal);
    assert_eq!(s.key('p'), MODE::Normal);
    assert_eq!(s.buf.get_contents(), doc(&["first", "first", "second"]));
    // pasting is undoable
    s.key('u');
    assert_eq!(s.buf.get_contents(), doc(&["first", "second"]));
}

#[test]
fn n_jumps_to_the_next_search_result() {
    let mut s = session(&["aXbX", "X"]);
    s.buf.search_result_register(vec![
        Point { column: 1, row: 0 },
        Point { column: 3, row: 0 },
        Point { column: 0, row: 1 },
    ]);
    assert_eq!(s.key('n'), MODE::Normal);
    assert_eq!(
        s.display.get_cursor_coordinate_in_file(),
        Point { column: 3, row: 0 }
    );
    s.key('n');
    assert_eq!(
        s.display.get_cursor_coordinate_in_file(),
        Point { column: 0, row: 1 }
    );
    s.key('n');
    assert_eq!(
        s.display.get_cursor_coordinate_in_file(),
        Point { column: 1, row: 0 }
    );
}

#[test]
fn n_without_results_stays_put() {
    let mut s = session(&["abc"]);
    s.key('n');
    assert_eq!(
        s.display.get_cursor_coordinate_in_file(),
        Point { column: 0, row: 0 }
    );
}

#[test]
fn non_character_keys_do_nothing() {
    let mut s = session(&["abc"]);
    let m = Normal::proc_normal(
        KeyCode::PageDown,
        &mut s.display,
        &mut s.buf,
        &mut s.undo,
        &mut s.yank,
    );
    assert_eq!(m, MODE::Normal);
    assert_eq!(s.buf.get_contents(), doc(&["abc"]));
}
