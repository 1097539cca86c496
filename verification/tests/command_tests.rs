use modal_edit::command::{resolve_jump, Command};
use modal_edit::coordinate::Point;
use modal_edit::mode::MODE;
use modal_edit::router::OperationCode;

const ENTER: char = '\u{0003}';
const ERASE: char = '\u{0008}';
const ESCAPE: char = '\u{001b}';

fn feed(cmd: &mut Command, text: &str) {
    for c in text.chars() {
        let r = cmd.proc_command(c);
        assert_eq!(r, OperationCode::DoNothing);
    }
}

#[test]
fn save_quit_and_save_and_quit() {
    let mut cmd = Command::new();
    feed(&mut cmd, "w");
    assert_eq!(cmd.proc_command(ENTER), OperationCode::Save);
    feed(&mut cmd, "q");
    assert_eq!(cmd.proc_command(ENTER), OperationCode::Quit);
    feed(&mut cmd, "wq");
    assert_eq!(cmd.proc_command(ENTER), OperationCode::SaveAndQuit);
}

#[test]
fn buffer_is_cleared_after_every_execute() {
    let mut cmd = Command::new();
    feed(&mut cmd, "nonsense");
    assert_eq!(cmd.proc_command(ENTER), OperationCode::DoNothing);
    assert_eq!(cmd.get_command_buf(), "");
    feed(&mut cmd, "q");
    assert_eq!(cmd.proc_command(ENTER), OperationCode::Quit);
    assert_eq!(cmd.get_command_buf(), "");
}

#[test]
fn digits_become_a_jump() {
    let mut cmd = Command::new();
    feed(&mut cmd, "12");
    assert_eq!(
        cmd.proc_command(ENTER),
        OperationCode::Jump(Point { column: 0, row: 12 })
    );
}

#[test]
fn jump_target_is_clamped_to_document() {
    // command buffer "12" on a five-line document jumps to line 5, not 12
    let mut cmd = Command::new();
    feed(&mut cmd, "12");
    let op = cmd.proc_command(ENTER);
    let target = match op {
        OperationCode::Jump(p) => p.row,
        other => panic!("expected a jump, got {:?}", other),
    };
    let line_count = 5;
    let row = resolve_jump(target, line_count);
    assert_eq!(row, 4); // zero-based row of line 5
}

#[test]
fn resolve_jump_edges() {
    assert_eq!(resolve_jump(3, 10), 2);
    assert_eq!(resolve_jump(0, 10), 0); // below one clamps to line 1
    assert_eq!(resolve_jump(99, 10), 9); // beyond the end clamps to the last line
    assert_eq!(resolve_jump(7, 0), 0); // empty document pins to row 0
}

#[test]
fn oversized_numbers_are_not_jumps() {
    let mut cmd = Command::new();
    feed(&mut cmd, "99999999999");
    assert_eq!(cmd.proc_command(ENTER), OperationCode::DoNothing);
}

#[test]
fn open_file_takes_the_second_token() {
    let mut cmd = Command::new();
    feed(&mut cmd, "e notes.txt");
    match cmd.proc_command(ENTER) {
        OperationCode::OpenFile(p) => assert_eq!(p, "notes.txt"),
        other => panic!("expected an open, got {:?}", other),
    }
    feed(&mut cmd, "e a b");
    match cmd.proc_command(ENTER) {
        OperationCode::OpenFile(p) => assert_eq!(p, "a"),
        other => panic!("expected an open, got {:?}", other),
    }
}

#[test]
fn bare_open_command_is_dropped() {
    let mut cmd = Command::new();
    feed(&mut cmd, "e");
    assert_eq!(cmd.proc_command(ENTER), OperationCode::DoNothing);
}

#[test]
fn erase_removes_last_character() {
    let mut cmd = Command::new();
    feed(&mut cmd, "wq");
    assert_eq!(cmd.proc_command(ERASE), OperationCode::DoNothing);
    assert_eq!(cmd.get_command_buf(), "w");
    assert_eq!(cmd.proc_command(ENTER), OperationCode::Save);
}

#[test]
fn erase_on_empty_buffer_is_harmless() {
    let mut cmd = Command::new();
    assert_eq!(cmd.proc_command(ERASE), OperationCode::DoNothing);
    assert_eq!(cmd.get_command_buf(), "");
}

#[test]
fn escape_leaves_command_mode_and_keeps_buffer() {
    let mut cmd = Command::new();
    feed(&mut cmd, "w");
    assert_eq!(
        cmd.proc_command(ESCAPE),
        OperationCode::ChangeMode(MODE::Normal)
    );
    assert_eq!(cmd.get_command_buf(), "w");
}
