use modal_edit::coordinate::Point;
use modal_edit::key::KeyCode;
use modal_edit::mode::MODE;
use modal_edit::router::{
    analyze_event, analyze_key_event, analyze_key_event_command, analyze_key_event_insert,
    analyze_key_event_normal, OperationCode, RouteAction, Router,
};
use modal_edit::viewport::MoveDirection;

const P: Point = Point { column: 2, row: 1 };

#[test]
fn normal_table_maps_movement_and_modes() {
    assert_eq!(
        analyze_key_event_normal(KeyCode::Char('j')),
        OperationCode::Move(MoveDirection::Down)
    );
    assert_eq!(
        analyze_key_event_normal(KeyCode::Char('k')),
        OperationCode::Move(MoveDirection::Up)
    );
    assert_eq!(
        analyze_key_event_normal(KeyCode::Char('h')),
        OperationCode::Move(MoveDirection::Left)
    );
    assert_eq!(
        analyze_key_event_normal(KeyCode::Char('l')),
        OperationCode::Move(MoveDirection::Right)
    );
    assert_eq!(
        analyze_key_event_normal(KeyCode::Char('i')),
        OperationCode::ChangeMode(MODE::Insert)
    );
    assert_eq!(analyze_key_event_normal(KeyCode::Char('u')), OperationCode::Undo);
    assert_eq!(analyze_key_event_normal(KeyCode::Char('r')), OperationCode::Redo);
    assert_eq!(
        analyze_key_event_normal(KeyCode::Char(':')),
        OperationCode::ChangeMode(MODE::Command)
    );
    assert_eq!(
        analyze_key_event_normal(KeyCode::Char('z')),
        OperationCode::DoNothing
    );
    assert_eq!(
        analyze_key_event_normal(KeyCode::Home),
        OperationCode::Move(MoveDirection::Head)
    );
    assert_eq!(analyze_key_event_normal(KeyCode::PageUp), OperationCode::DoNothing);
}

#[test]
fn insert_table_maps_text_entry() {
    assert_eq!(
        analyze_key_event_insert(KeyCode::Char('x'), P),
        OperationCode::InsertChar('x', 1, P)
    );
    assert_eq!(
        analyze_key_event_insert(KeyCode::Enter, P),
        OperationCode::InsertChar('\n', 1, P)
    );
    assert_eq!(
        analyze_key_event_insert(KeyCode::Tab, P),
        OperationCode::InsertChar('\t', 1, P)
    );
    assert_eq!(
        analyze_key_event_insert(KeyCode::Backspace, P),
        OperationCode::BackSpace(1, P)
    );
    assert_eq!(
        analyze_key_event_insert(KeyCode::Delete, P),
        OperationCode::Delete(1, P)
    );
    assert_eq!(
        analyze_key_event_insert(KeyCode::Esc, P),
        OperationCode::ChangeMode(MODE::Normal)
    );
}

#[test]
fn command_table_maps_control_codes() {
    assert_eq!(
        analyze_key_event_command(KeyCode::Char('w')),
        OperationCode::Command('w')
    );
    assert_eq!(
        analyze_key_event_command(KeyCode::Enter),
        OperationCode::Command('\u{0003}')
    );
    assert_eq!(
        analyze_key_event_command(KeyCode::Backspace),
        OperationCode::Command('\u{0008}')
    );
    assert_eq!(
        analyze_key_event_command(KeyCode::Esc),
        OperationCode::ChangeMode(MODE::Normal)
    );
}

#[test]
fn key_dispatch_follows_the_mode() {
    assert_eq!(
        analyze_key_event(&MODE::Normal, KeyCode::Char('x'), P),
        OperationCode::DoNothing
    );
    assert_eq!(
        analyze_key_event(&MODE::Insert, KeyCode::Char('x'), P),
        OperationCode::InsertChar('x', 1, P)
    );
    assert_eq!(
        analyze_key_event(&MODE::Command, KeyCode::Char('x'), P),
        OperationCode::Command('x')
    );
    // modes without a table of their own read keys like Normal mode
    assert_eq!(
        analyze_key_event(&MODE::Visual, KeyCode::Char('j'), P),
        OperationCode::Move(MoveDirection::Down)
    );
}

#[test]
fn analyze_event_interprets_keys_and_passes_codes() {
    assert_eq!(
        analyze_event(&MODE::Normal, OperationCode::Input(KeyCode::Char('u')), P),
        OperationCode::Undo
    );
    assert_eq!(
        analyze_event(&MODE::Normal, OperationCode::Save, P),
        OperationCode::Save
    );
}

#[test]
fn router_dispatches_to_owning_actor() {
    let mut router = Router::new();
    // a key in Normal mode becomes a movement for the view actor
    let act = router.step(OperationCode::Input(KeyCode::Char('j')));
    assert!(matches!(
        act,
        RouteAction::ToShow(OperationCode::Move(MoveDirection::Down))
    ));
    // entering insert mode changes the router's own state
    let act = router.step(OperationCode::Input(KeyCode::Char('i')));
    assert!(matches!(act, RouteAction::Idle));
    // the same key now goes to the edit actor as a character insertion
    let act = router.step(OperationCode::Input(KeyCode::Char('j')));
    assert!(matches!(
        act,
        RouteAction::ToEdit(OperationCode::InsertChar('j', 1, _))
    ));
}

#[test]
fn router_tracks_reported_positions() {
    let mut router = Router::new();
    let act = router.step(OperationCode::UpdatePosition(Point { column: 4, row: 9 }));
    assert!(matches!(act, RouteAction::Idle));
    let act = router.step(OperationCode::Input(KeyCode::Char('i')));
    assert!(matches!(act, RouteAction::Idle));
    let act = router.step(OperationCode::Input(KeyCode::Char('q')));
    match act {
        RouteAction::ToEdit(OperationCode::InsertChar(c, 1, p)) => {
            assert_eq!(c, 'q');
            assert_eq!(p, Point { column: 4, row: 9 });
        },
        _ => panic!("expected an insertion for the edit actor"),
    }
}

#[test]
fn router_broadcasts_quit_and_finishes_on_end() {
    let mut router = Router::new();
    assert!(matches!(
        router.step(OperationCode::Quit),
        RouteAction::BroadcastQuit
    ));
    assert!(matches!(router.step(OperationCode::End), RouteAction::Finish));
    assert!(matches!(
        router.step(OperationCode::Start),
        RouteAction::Idle
    ));
}

#[test]
fn router_routes_edit_operations() {
    let mut router = Router::new();
    assert!(matches!(
        router.step(OperationCode::Undo),
        RouteAction::ToEdit(OperationCode::Undo)
    ));
    assert!(matches!(
        router.step(OperationCode::Delete(1, P)),
        RouteAction::ToEdit(OperationCode::Delete(1, _))
    ));
    assert!(matches!(
        router.step(OperationCode::Command('w')),
        RouteAction::ToCommand(OperationCode::Command('w'))
    ));
    assert!(matches!(
        router.step(OperationCode::Jump(P)),
        RouteAction::ToShow(OperationCode::Jump(_))
    ));
}
