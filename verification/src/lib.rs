//! Engine of a modal, line-oriented text editor: a line-structured document
//! model with insert/delete primitives, a bounded undo/redo history, a
//! mode-driven key interpreter, viewport bookkeeping, command-line parsing and
//! in-document search.  Terminal I/O, file I/O and task plumbing live outside
//! this crate; everything here is pure state manipulation, verified against
//! the contracts on each public function.

pub mod buffer;
pub mod command;
pub mod coordinate;
pub mod edit;
pub mod file;
pub mod history;
pub mod insert;
pub mod key;
pub mod mode;
pub mod normal;
pub mod router;
pub mod search;
pub mod viewport;
