//! The edit actor's operation handler: applies character insertion and
//! backspace operations to the shared document, recording each applied edit
//! on the undo stack, and answers with the cursor movement the view should
//! make.

use vstd::prelude::*;

use crate::buffer;
use crate::buffer::{
    delete_spec, doc_view, doc_wf, insert_pos_ok, insert_spec, lemma_delete_preserves_wf,
    lemma_insert_preserves_wf, run_wf,
};
use crate::coordinate::Point;
use crate::edit::Undo;
use crate::history::{hist_add_spec, EditOperation, RecordModel};
use crate::router::OperationCode;
use crate::viewport::MoveDirection;

verus! {

/// An insertion anchor the handler accepts: the coordinate is within the
/// document (or appends a new line) and the target line can still grow.
pub open spec fn can_insert_at(doc: Seq<Seq<char>>, pos: Point) -> bool {
    insert_pos_ok(doc, pos) && (pos.row < doc.len() ==> doc[pos.row as int].len() + 1
        <= usize::MAX)
}

/// A backspace that joins two lines: the cursor stands at column zero of an
/// existing line that has a predecessor.  Its anchor is the end of that
/// predecessor.
pub open spec fn can_join_back(doc: Seq<Seq<char>>, pos: Point) -> bool {
    pos.column == 0 && 0 < pos.row < doc.len()
}

/// A backspace within a line: the character left of the cursor exists.
pub open spec fn can_erase_back(doc: Seq<Seq<char>>, pos: Point) -> bool {
    pos.column > 0 && pos.row < doc.len() && pos.column <= doc[pos.row as int].len()
}

/// Apply one edit operation, as the clauses below describe: a character (or
/// line-break) is spliced in at its coordinate, a backspace deletes the
/// character — or line-break — before its coordinate; every applied edit is
/// recorded for undo; anything else, and any operation whose coordinate does
/// not fit the document, changes nothing.
pub fn proc_insert(code: OperationCode, buf: &mut Vec<Vec<char>>, undo: &mut Undo) -> (r:
    OperationCode)
    requires
        old(undo).wf(),
        doc_wf(doc_view(old(buf)@)),
    ensures
        final(undo).wf(),
        doc_wf(doc_view(final(buf)@)),
        final(undo).redo_stack() == old(undo).redo_stack(),
        ({
            let doc0 = doc_view(old(buf)@);
            let doc1 = doc_view(final(buf)@);
            let undo0 = old(undo).undo_stack();
            let undo1 = final(undo).undo_stack();
            match code {
                OperationCode::InsertChar(c, _n, pos) => {
                    if can_insert_at(doc0, pos) {
                        &&& doc1 == insert_spec(doc0, pos, seq![c])
                        &&& undo1 == hist_add_spec(
                            undo0,
                            RecordModel { ope: EditOperation::ADD, target: seq![c], position: pos },
                        )
                        &&& r == OperationCode::Move(
                            if c == '\n' {
                                MoveDirection::NewLine
                            } else {
                                MoveDirection::Right
                            },
                        )
                    } else {
                        doc1 == doc0 && undo1 == undo0 && r == OperationCode::DoNothing
                    }
                },
                OperationCode::BackSpace(_n, pos) => {
                    if can_join_back(doc0, pos) {
                        let anchor = Point {
                            column: doc0[pos.row - 1].len() as usize,
                            row: (pos.row - 1) as usize,
                        };
                        &&& doc1 == delete_spec(doc0, anchor, 1).0
                        &&& undo1 == hist_add_spec(
                            undo0,
                            RecordModel {
                                ope: EditOperation::DELETE,
                                target: delete_spec(doc0, anchor, 1).1,
                                position: anchor,
                            },
                        )
                        &&& r == OperationCode::Move(MoveDirection::Up)
                    } else if can_erase_back(doc0, pos) {
                        let anchor = Point { column: (pos.column - 1) as usize, row: pos.row };
                        &&& doc1 == delete_spec(doc0, anchor, 1).0
                        &&& undo1 == hist_add_spec(
                            undo0,
                            RecordModel {
                                ope: EditOperation::DELETE,
                                target: delete_spec(doc0, anchor, 1).1,
                                position: anchor,
                            },
                        )
                        &&& r == OperationCode::Move(MoveDirection::Left)
                    } else {
                        doc1 == doc0 && undo1 == undo0 && r == OperationCode::DoNothing
                    }
                },
                _ => doc1 == doc0 && undo1 == undo0 && r == OperationCode::DoNothing,
            }
        }),
{
    match code {
        OperationCode::InsertChar(c, _n, pos) => {
            let ok = if pos.row < buf.len() {
                let line_len = buf[pos.row].len();
                pos.column <= line_len && line_len < usize::MAX
            } else {
                true
            };
            proof {
                assert(pos.row < buf@.len() ==> doc_view(buf@)[pos.row as int] == buf@[pos.row as int]@);
                assert(ok == can_insert_at(doc_view(buf@), pos));
            }
            if ok {
                let mut text: Vec<char> = Vec::new();
                text.push(c);
                proof {
                    assert(text@ =~= seq![c]);
                    assert(run_wf(text@));
                    lemma_insert_preserves_wf(doc_view(buf@), pos, text@);
                }
                buffer::insert(buf, pos, &text);
                undo.add_do_history(EditOperation::ADD, text, pos);
                if c == '\n' {
                    OperationCode::Move(MoveDirection::NewLine)
                } else {
                    OperationCode::Move(MoveDirection::Right)
                }
            } else {
                OperationCode::DoNothing
            }
        },
        OperationCode::BackSpace(_n, pos) => {
            if pos.column == 0 {
                if 0 < pos.row && pos.row < buf.len() {
                    let anchor = Point { column: buf[pos.row - 1].len(), row: pos.row - 1 };
                    proof {
                        assert(doc_view(buf@)[pos.row - 1] == buf@[pos.row - 1]@);
                        lemma_delete_preserves_wf(doc_view(buf@), anchor, 1);
                        reveal_with_fuel(delete_spec, 2);
                    }
                    let run = buffer::delete(buf, anchor, 1);
                    proof {
                        assert(run@.len() <= 1);
                        assert(run_wf(run@));
                        assert(run@.len() == 1);
                    }
                    undo.add_do_history(EditOperation::DELETE, run, anchor);
                    OperationCode::Move(MoveDirection::Up)
                } else {
                    OperationCode::DoNothing
                }
            } else {
                let ok = if pos.row < buf.len() {
                    pos.column <= buf[pos.row].len()
                } else {
                    false
                };
                proof {
                    assert(pos.row < buf@.len() ==> doc_view(buf@)[pos.row as int] == buf@[pos.row as int]@);
                    assert(ok == can_erase_back(doc_view(buf@), pos));
                }
                if ok {
                    let anchor = Point { column: pos.column - 1, row: pos.row };
                    proof {
                        lemma_delete_preserves_wf(doc_view(buf@), anchor, 1);
                        reveal_with_fuel(delete_spec, 2);
                    }
                    let run = buffer::delete(buf, anchor, 1);
                    proof {
                        assert(run@.len() <= 1);
                        assert(run_wf(run@));
                        assert(run@.len() == 1);
                    }
                    undo.add_do_history(EditOperation::DELETE, run, anchor);
                    OperationCode::Move(MoveDirection::Left)
                } else {
                    OperationCode::DoNothing
                }
            }
        },
        _ => OperationCode::DoNothing,
    }
}

} // verus!
