use modal_edit::buffer::{delete, insert};
use modal_edit::coordinate::Point;
use modal_edit::edit::{Undo, UndoDirection};
use modal_edit::history::EditOperation;
use modal_edit::insert::proc_insert;
use modal_edit::router::OperationCode;
use modal_edit::viewport::MoveDirection;

fn doc(lines: &[&str]) -> Vec<Vec<char>> {
    lines.iter().map(|l| l.chars().collect()).collect()
}

#[test]
fn insert_splices_into_line() {
    let mut d = doc(&["data0", "data1", "data2", "data3", "data4"]);
    insert(&mut d, Point { column: 0, row: 0 }, &vec!['a']);
    assert_eq!(d, doc(&["adata0", "data1", "data2", "data3", "data4"]));
}

#[test]
fn insert_at_line_end_appends() {
    let mut d = doc(&["abc"]);
    insert(&mut d, Point { column: 3, row: 0 }, &vec!['x', 'y']);
    assert_eq!(d, doc(&["abcxy"]));
}

#[test]
fn insert_into_empty_document_creates_first_line() {
    let mut d: Vec<Vec<char>> = Vec::new();
    insert(&mut d, Point { column: 0, row: 0 }, &vec!['h', 'i']);
    assert_eq!(d, doc(&["hi"]));
}

#[test]
fn insert_line_break_splits_line() {
    // a break at column 2 of "abcd" leaves "ab" and "cd" as consecutive lines
    let mut d = doc(&["abcd", "tail"]);
    insert(&mut d, Point { column: 2, row: 0 }, &vec!['\n']);
    assert_eq!(d, doc(&["ab", "cd", "tail"]));
}

#[test]
fn insert_run_with_trailing_break() {
    let mut d = doc(&["abcd"]);
    insert(&mut d, Point { column: 2, row: 0 }, &vec!['X', 'Y', '\n']);
    assert_eq!(d, doc(&["abXY", "cd"]));
}

#[test]
fn delete_within_line_returns_removed_run() {
    let mut d = doc(&["abcdef"]);
    let run = delete(&mut d, Point { column: 1, row: 0 }, 3);
    assert_eq!(d, doc(&["aef"]));
    assert_eq!(run, vec!['b', 'c', 'd']);
}

#[test]
fn delete_across_line_boundary_merges_lines() {
    // the canonical forward join: delete length 1 at the end of "data0"
    let mut d = doc(&["data0", "data1"]);
    let run = delete(&mut d, Point { column: 5, row: 0 }, 1);
    assert_eq!(d, doc(&["data0data1"]));
    assert_eq!(run, vec!['\n']);
    assert_eq!(*run.last().unwrap(), '\n');
}

#[test]
fn delete_clamps_at_document_end() {
    let mut d = doc(&["ab"]);
    let run = delete(&mut d, Point { column: 1, row: 0 }, 10);
    assert_eq!(d, doc(&["a"]));
    assert_eq!(run, vec!['b']);
}

#[test]
fn insert_then_delete_round_trip() {
    // inserting a run and deleting the same number of characters at the
    // same anchor restores the document and returns exactly that run
    let original = doc(&["hello", "world"]);
    let cases: Vec<(Point, Vec<char>)> = vec![
        (Point { column: 0, row: 0 }, vec!['x']),
        (Point { column: 3, row: 0 }, vec!['a', 'b', 'c']),
        (Point { column: 5, row: 0 }, vec!['\n']),
        (Point { column: 2, row: 1 }, vec!['z', '\n']),
    ];
    for (anchor, text) in cases {
        let mut d = original.clone();
        insert(&mut d, anchor, &text);
        let run = delete(&mut d, anchor, text.len());
        assert_eq!(d, original);
        assert_eq!(run, text);
    }
}

#[test]
fn proc_insert_char_records_and_moves_right() {
    let mut d = doc(&["data0", "data1", "data2", "data3", "data4"]);
    let mut undo = Undo::new();
    let r = proc_insert(
        OperationCode::InsertChar('a', 1, Point { column: 0, row: 0 }),
        &mut d,
        &mut undo,
    );
    assert_eq!(d, doc(&["adata0", "data1", "data2", "data3", "data4"]));
    assert_eq!(r, OperationCode::Move(MoveDirection::Right));
}

#[test]
fn proc_insert_newline_splits() {
    let mut d = doc(&["data0"]);
    let mut undo = Undo::new();
    let r = proc_insert(
        OperationCode::InsertChar('\n', 1, Point { column: 2, row: 0 }),
        &mut d,
        &mut undo,
    );
    assert_eq!(d, doc(&["da", "ta0"]));
    assert_eq!(r, OperationCode::Move(MoveDirection::NewLine));
}

#[test]
fn proc_insert_backspace_joins_lines() {
    let mut d = doc(&["data0", "data1"]);
    let mut undo = Undo::new();
    let r = proc_insert(
        OperationCode::BackSpace(1, Point { column: 0, row: 1 }),
        &mut d,
        &mut undo,
    );
    assert_eq!(d, doc(&["data0data1"]));
    assert_eq!(r, OperationCode::Move(MoveDirection::Up));
}

#[test]
fn proc_insert_backspace_erases_previous_char() {
    let mut d = doc(&["data0"]);
    let mut undo = Undo::new();
    let r = proc_insert(
        OperationCode::BackSpace(1, Point { column: 3, row: 0 }),
        &mut d,
        &mut undo,
    );
    assert_eq!(d, doc(&["daa0"]));
    assert_eq!(r, OperationCode::Move(MoveDirection::Left));
}

#[test]
fn proc_insert_out_of_range_does_nothing() {
    let mut d = doc(&["ab"]);
    let mut undo = Undo::new();
    let r = proc_insert(
        OperationCode::InsertChar('z', 1, Point { column: 9, row: 0 }),
        &mut d,
        &mut undo,
    );
    assert_eq!(d, doc(&["ab"]));
    assert_eq!(r, OperationCode::DoNothing);
}

#[test]
fn undo_after_insert_restores_document() {
    // insert 'a' at the origin, then undo: the document comes back and the
    // reported anchor is the edit's anchor
    let original = doc(&["data0", "data1", "data2", "data3", "data4"]);
    let mut d = original.clone();
    let mut undo = Undo::new();
    proc_insert(
        OperationCode::InsertChar('a', 1, Point { column: 0, row: 0 }),
        &mut d,
        &mut undo,
    );
    assert_eq!(d[0], "adata0".chars().collect::<Vec<char>>());
    let pos = undo.undo(&mut d, UndoDirection::Undo);
    assert_eq!(d, original);
    assert_eq!(pos, Point { column: 0, row: 0 });
}

#[test]
fn redo_after_undo_reapplies_edit() {
    let original = doc(&["data0"]);
    let mut d = original.clone();
    let mut undo = Undo::new();
    proc_insert(
        OperationCode::InsertChar('q', 1, Point { column: 2, row: 0 }),
        &mut d,
        &mut undo,
    );
    let edited = d.clone();
    undo.undo(&mut d, UndoDirection::Undo);
    assert_eq!(d, original);
    let pos = undo.undo(&mut d, UndoDirection::Redo);
    assert_eq!(d, edited);
    assert_eq!(pos, Point { column: 2, row: 0 });
}

#[test]
fn undo_after_backspace_restores_line_break() {
    let original = doc(&["data0", "data1"]);
    let mut d = original.clone();
    let mut undo = Undo::new();
    proc_insert(
        OperationCode::BackSpace(1, Point { column: 0, row: 1 }),
        &mut d,
        &mut undo,
    );
    assert_eq!(d, doc(&["data0data1"]));
    let pos = undo.undo(&mut d, UndoDirection::Undo);
    assert_eq!(d, original);
    assert_eq!(pos, Point { column: 5, row: 0 });
}

#[test]
fn undo_on_empty_history_is_noop() {
    let mut d = doc(&["abc"]);
    let mut undo = Undo::new();
    let pos = undo.undo(&mut d, UndoDirection::Undo);
    assert_eq!(d, doc(&["abc"]));
    assert_eq!(pos, Point { column: 0, row: 0 });
}

#[test]
fn add_do_history_skips_empty_runs() {
    let mut d = doc(&["abc"]);
    let mut undo = Undo::new();
    undo.add_do_history(EditOperation::ADD, Vec::new(), Point { column: 0, row: 0 });
    let pos = undo.undo(&mut d, UndoDirection::Undo);
    assert_eq!(pos, Point { column: 0, row: 0 });
    assert_eq!(d, doc(&["abc"]));
}
