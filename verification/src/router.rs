//! The system controller: raw keys become semantic operations, and each
//! operation is dispatched to the single actor that owns the affected state.
//!
//! The controller's loop (receive, interpret, send) is plumbing and lives
//! outside the library; the decisions it takes each cycle — how a key reads
//! in the current mode, which actor an operation goes to, and how the cached
//! mode and cursor position change — are the pure [`Router::step`] here.

use vstd::prelude::*;

use crate::coordinate::Point;
use crate::key::KeyCode;
use crate::mode::MODE;
use crate::viewport::MoveDirection;

verus! {

/// The actors of the session; `ProcessMax` counts them.
#[derive(Clone, Copy, Debug, PartialEq, Eq, Structural)]
pub enum ProcessID {
    SystemControl,
    Show,
    FileControl,
    Input,
    Edit,
    Command,
    Lsp,
    ProcessMax,
}

/// A semantic operation passed between actors.
#[derive(Clone, Debug, PartialEq, Eq)]
pub enum OperationCode {
    Start,
    Initialized,
    Update,
    Undo,
    Redo,
    ChangeMode(MODE),
    Input(KeyCode),
    InsertChar(char, usize, Point),
    InputChar(char, Point),
    Delete(usize, Point),
    BackSpace(usize, Point),
    Move(MoveDirection),
    Jump(Point),
    Command(char),
    Function(u8),
    OpenFile(String),
    UpdatePosition(Point),
    Enter,
    Save,
    Quit,
    SaveAndQuit,
    Click,
    Scroll,
    End,
    Terminated,
    DoNothing,
}

/// An operation together with its sender.
pub struct Operation {
    pub sender: ProcessID,
    pub code: OperationCode,
}

/// How a key reads in Normal mode.
pub open spec fn analyze_key_normal_spec(code: KeyCode) -> OperationCode {
    match code {
        KeyCode::Char(c) => {
            if c == 'j' {
                OperationCode::Move(MoveDirection::Down)
            } else if c == 'h' {
                OperationCode::Move(MoveDirection::Left)
            } else if c == 'k' {
                OperationCode::Move(MoveDirection::Up)
            } else if c == 'l' {
                OperationCode::Move(MoveDirection::Right)
            } else if c == 'i' {
                OperationCode::ChangeMode(MODE::Insert)
            } else if c == 'u' {
                OperationCode::Undo
            } else if c == 'r' {
                OperationCode::Redo
            } else if c == ':' {
                OperationCode::ChangeMode(MODE::Command)
            } else {
                OperationCode::DoNothing
            }
        },
        KeyCode::Backspace => OperationCode::Move(MoveDirection::Left),
        KeyCode::Up => OperationCode::Move(MoveDirection::Up),
        KeyCode::Down => OperationCode::Move(MoveDirection::Down),
        KeyCode::Left => OperationCode::Move(MoveDirection::Left),
        KeyCode::Right => OperationCode::Move(MoveDirection::Right),
        KeyCode::Home => OperationCode::Move(MoveDirection::Head),
        KeyCode::End => OperationCode::Move(MoveDirection::Tail),
        KeyCode::Esc => OperationCode::ChangeMode(MODE::Normal),
        KeyCode::Enter => OperationCode::Enter,
        KeyCode::F(c) => OperationCode::Function(c),
        _ => OperationCode::DoNothing,
    }
}

/// How a key reads in Insert mode.
pub open spec fn analyze_key_insert_spec(code: KeyCode, position: Point) -> OperationCode {
    match code {
        KeyCode::Char(c) => OperationCode::InsertChar(c, 1, position),
        KeyCode::Backspace => OperationCode::BackSpace(1, position),
        KeyCode::Delete => OperationCode::Delete(1, position),
        KeyCode::Tab => OperationCode::InsertChar('\t', 1, position),
        KeyCode::Up => OperationCode::Move(MoveDirection::Up),
        KeyCode::Down => OperationCode::Move(MoveDirection::Down),
        KeyCode::Left => OperationCode::Move(MoveDirection::Left),
        KeyCode::Right => OperationCode::Move(MoveDirection::Right),
        KeyCode::Home => OperationCode::Move(MoveDirection::Head),
        KeyCode::End => OperationCode::Move(MoveDirection::Tail),
        KeyCode::Esc => OperationCode::ChangeMode(MODE::Normal),
        KeyCode::Enter => OperationCode::InsertChar('\n', 1, position),
        KeyCode::F(c) => OperationCode::Function(c),
        _ => OperationCode::DoNothing,
    }
}

/// How a key reads in Command mode.
pub open spec fn analyze_key_command_spec(code: KeyCode) -> OperationCode {
    match code {
        KeyCode::Char(c) => OperationCode::Command(c),
        KeyCode::Backspace => OperationCode::Command('\u{0008}'),
        KeyCode::Enter => OperationCode::Command('\u{0003}'),
        KeyCode::Esc => OperationCode::ChangeMode(MODE::Normal),
        _ => OperationCode::DoNothing,
    }
}

/// How a key reads in the given mode; modes without a table of their own
/// fall back to the Normal table.
pub open spec fn analyze_key_spec(mode: MODE, code: KeyCode, position: Point) -> OperationCode {
    match mode {
        MODE::Normal => analyze_key_normal_spec(code),
        MODE::Insert => analyze_key_insert_spec(code, position),
        MODE::Command => analyze_key_command_spec(code),
        _ => analyze_key_normal_spec(code),
    }
}

/// What an incoming message means: raw keys are interpreted by mode, and
/// every other operation stands for itself.
pub open spec fn analyze_event_spec(mode: MODE, code: OperationCode, position: Point) -> OperationCode {
    match code {
        OperationCode::Input(c) => analyze_key_spec(mode, c, position),
        _ => code,
    }
}

pub fn analyze_key_event_normal(code: KeyCode) -> (r: OperationCode)
    ensures
        r == analyze_key_normal_spec(code),
{
    match code {
        KeyCode::Char(c) if c == 'j' => OperationCode::Move(MoveDirection::Down),
        KeyCode::Char(c) if c == 'h' => OperationCode::Move(MoveDirection::Left),
        KeyCode::Char(c) if c == 'k' => OperationCode::Move(MoveDirection::Up),
        KeyCode::Char(c) if c == 'l' => OperationCode::Move(MoveDirection::Right),
        KeyCode::Char(c) if c == 'i' => OperationCode::ChangeMode(MODE::Insert),
        KeyCode::Char(c) if c == 'u' => OperationCode::Undo,
        KeyCode::Char(c) if c == 'r' => OperationCode::Redo,
        KeyCode::Char(c) if c == ':' => OperationCode::ChangeMode(MODE::Command),
        KeyCode::Char(_) => OperationCode::DoNothing,
        KeyCode::Backspace => OperationCode::Move(MoveDirection::Left),
        KeyCode::Up => OperationCode::Move(MoveDirection::Up),
        KeyCode::Down => OperationCode::Move(MoveDirection::Down),
        KeyCode::Left => OperationCode::Move(MoveDirection::Left),
        KeyCode::Right => OperationCode::Move(MoveDirection::Right),
        KeyCode::Home => OperationCode::Move(MoveDirection::Head),
        KeyCode::End => OperationCode::Move(MoveDirection::Tail),
        KeyCode::Esc => OperationCode::ChangeMode(MODE::Normal),
        KeyCode::Enter => OperationCode::Enter,
        KeyCode::F(c) => OperationCode::Function(c),
        _ => OperationCode::DoNothing,
    }
}

pub fn analyze_key_event_insert(code: KeyCode, position: Point) -> (r: OperationCode)
    ensures
        r == analyze_key_insert_spec(code, position),
{
    match code {
        KeyCode::Char(c) => OperationCode::InsertChar(c, 1, position),
        KeyCode::Backspace => OperationCode::BackSpace(1, position),
        KeyCode::Delete => OperationCode::Delete(1, position),
        KeyCode::Tab => OperationCode::InsertChar('\t', 1, position),
        KeyCode::Up => OperationCode::Move(MoveDirection::Up),
        KeyCode::Down => OperationCode::Move(MoveDirection::Down),
        KeyCode::Left => OperationCode::Move(MoveDirection::Left),
        KeyCode::Right => OperationCode::Move(MoveDirection::Right),
        KeyCode::Home => OperationCode::Move(MoveDirection::Head),
        KeyCode::End => OperationCode::Move(MoveDirection::Tail),
        KeyCode::Esc => OperationCode::ChangeMode(MODE::Normal),
        KeyCode::Enter => OperationCode::InsertChar('\n', 1, position),
        KeyCode::F(c) => OperationCode::Function(c),
        _ => OperationCode::DoNothing,
    }
}

pub fn analyze_key_event_command(code: KeyCode) -> (r: OperationCode)
    ensures
        r == analyze_key_command_spec(code),
{
    match code {
        KeyCode::Char(c) => OperationCode::Command(c),
        KeyCode::Backspace => OperationCode::Command('\u{0008}'),
        KeyCode::Enter => OperationCode::Command('\u{0003}'),
        KeyCode::Esc => OperationCode::ChangeMode(MODE::Normal),
        _ => OperationCode::DoNothing,
    }
}

pub fn analyze_key_event(mode: &MODE, code: KeyCode, position: Point) -> (r: OperationCode)
    ensures
        r == analyze_key_spec(*mode, code, position),
{
    match mode {
        MODE::Normal => analyze_key_event_normal(code),
        MODE::Insert => analyze_key_event_insert(code, position),
        MODE::Command => analyze_key_event_command(code),
        _ => analyze_key_event_normal(code),
    }
}

pub fn analyze_event(mode: &MODE, code: OperationCode, position: Point) -> (r: OperationCode)
    ensures
        r == analyze_event_spec(*mode, code, position),
{
    match code {
        OperationCode::Input(c) => analyze_key_event(mode, c, position),
        _ => code,
    }
}

/// Where the controller sends an interpreted operation, or what it does
/// itself instead.
pub enum RouteAction {
    ToEdit(OperationCode),
    ToShow(OperationCode),
    ToCommand(OperationCode),
    BroadcastQuit,
    Finish,
    Idle,
}

/// One dispatch decision: the controller's mode and cached position after
/// the event, and where the event goes.  Edit operations go to the edit
/// actor, movement and jumps to the view actor, command characters to the
/// command-line actor; mode changes and position reports update the
/// controller's own state; `Quit` is broadcast and `End` stops the loop.
pub open spec fn route_spec(mode: MODE, position: Point, event: OperationCode) -> (
    MODE,
    Point,
    RouteAction,
) {
    match event {
        OperationCode::ChangeMode(m) => (m, position, RouteAction::Idle),
        OperationCode::InputChar(c, p) => (
            mode,
            position,
            RouteAction::ToEdit(OperationCode::InputChar(c, p)),
        ),
        OperationCode::InsertChar(c, n, p) => (
            mode,
            position,
            RouteAction::ToEdit(OperationCode::InsertChar(c, n, p)),
        ),
        OperationCode::Undo => (mode, position, RouteAction::ToEdit(OperationCode::Undo)),
        OperationCode::Redo => (mode, position, RouteAction::ToEdit(OperationCode::Redo)),
        OperationCode::Delete(n, p) => (
            mode,
            position,
            RouteAction::ToEdit(OperationCode::Delete(n, p)),
        ),
        OperationCode::BackSpace(n, p) => (
            mode,
            position,
            RouteAction::ToEdit(OperationCode::BackSpace(n, p)),
        ),
        OperationCode::Move(d) => (mode, position, RouteAction::ToShow(OperationCode::Move(d))),
        OperationCode::Jump(p) => (mode, position, RouteAction::ToShow(OperationCode::Jump(p))),
        OperationCode::Command(c) => (
            mode,
            position,
            RouteAction::ToCommand(OperationCode::Command(c)),
        ),
        OperationCode::UpdatePosition(p) => (mode, p, RouteAction::Idle),
        OperationCode::Quit => (mode, position, RouteAction::BroadcastQuit),
        OperationCode::End => (mode, position, RouteAction::Finish),
        _ => (mode, position, RouteAction::Idle),
    }
}

/// The controller's own state: the authoritative mode and the last cursor
/// position an actor reported.
pub struct Router {
    mode: MODE,
    position: Point,
}

impl Router {
    /// The mode in force.
    pub closed spec fn mode_spec(&self) -> MODE {
        self.mode
    }

    /// The last reported cursor position.
    pub closed spec fn position_spec(&self) -> Point {
        self.position
    }

    pub fn new() -> (r: Router)
        ensures
            r.mode_spec() == MODE::Normal,
            r.position_spec() == (Point { column: 0, row: 0 }),
    {
        Router { mode: MODE::Normal, position: Point { column: 0, row: 0 } }
    }

    /// Interpret one incoming message under the current mode and decide its
    /// dispatch, as [`analyze_event_spec`] and [`route_spec`] describe.
    pub fn step(&mut self, incoming: OperationCode) -> (act: RouteAction)
        ensures
            ({
                let event = analyze_event_spec(
                    old(self).mode_spec(),
                    incoming,
                    old(self).position_spec(),
                );
                let next = route_spec(old(self).mode_spec(), old(self).position_spec(), event);
                &&& final(self).mode_spec() == next.0
                &&& final(self).position_spec() == next.1
                &&& act == next.2
            }),
    {
        let event = analyze_event(&self.mode, incoming, self.position);
        match event {
            OperationCode::ChangeMode(m) => {
                self.mode = m;
                RouteAction::Idle
            },
            OperationCode::InputChar(c, p) => RouteAction::ToEdit(OperationCode::InputChar(c, p)),
            OperationCode::InsertChar(c, n, p) => RouteAction::ToEdit(
                OperationCode::InsertChar(c, n, p),
            ),
            OperationCode::Undo => RouteAction::ToEdit(OperationCode::Undo),
            OperationCode::Redo => RouteAction::ToEdit(OperationCode::Redo),
            OperationCode::Delete(n, p) => RouteAction::ToEdit(OperationCode::Delete(n, p)),
            OperationCode::BackSpace(n, p) => RouteAction::ToEdit(OperationCode::BackSpace(n, p)),
            OperationCode::Move(d) => RouteAction::ToShow(OperationCode::Move(d)),
            OperationCode::Jump(p) => RouteAction::ToShow(OperationCode::Jump(p)),
            OperationCode::Command(c) => RouteAction::ToCommand(OperationCode::Command(c)),
            OperationCode::UpdatePosition(p) => {
                self.position = p;
                RouteAction::Idle
            },
            OperationCode::Quit => RouteAction::BroadcastQuit,
            OperationCode::End => RouteAction::Finish,
            _ => RouteAction::Idle,
        }
    }
}

} // verus!
