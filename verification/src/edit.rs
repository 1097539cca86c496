//! The undo/redo engine and the yank buffer.
//!
//! [`Undo`] owns two bounded [`History`] stacks.  Performing an edit records
//! it on the undo stack; undoing pops a record, applies its inverse to the
//! document and pushes the opposite record onto the redo stack; redoing is
//! the same step with the stacks swapped.  There is no separate redo log:
//! redo is derived entirely from this stack inversion.

use vstd::prelude::*;

use crate::buffer;
use crate::buffer::{
    delete_spec, doc_view, doc_wf, insert_pos_ok, insert_spec, line_wf, run_wf,
};
use crate::coordinate::Point;
use crate::history::{
    hist_add_spec, lemma_hist_add_shape, EditOperation, History, RecordModel,
};

verus! {

/// Which stack a history step draws from.
#[derive(Clone, Copy, Debug, PartialEq, Eq, Structural)]
pub enum UndoDirection {
    Undo,
    Redo,
}

/// Single-slot clipboard holding the last copied character run.
pub struct Yank {
    yank: Vec<char>,
}

impl View for Yank {
    type V = Seq<char>;

    closed spec fn view(&self) -> Seq<char> {
        self.yank@
    }
}

impl Yank {
    pub fn new() -> (y: Yank)
        ensures
            y@ == Seq::<char>::empty(),
    {
        let y = Yank { yank: Vec::new() };
        proof {
            assert(y@ =~= Seq::<char>::empty());
        }
        y
    }

    /// Overwrite the slot with a break-free character run.
    pub fn yankchars(&mut self, chars: Vec<char>)
        requires
            line_wf(chars@),
        ensures
            final(self)@ == chars@,
    {
        self.yank = chars;
    }

    /// Copy the line the anchor stands on into the slot; out of range, the
    /// slot keeps its previous content.
    pub fn yank(&mut self, buf: Vec<Vec<char>>, start: Point)
        requires
            doc_wf(doc_view(buf@)),
        ensures
            start.row < buf@.len() ==> final(self)@ == buf@[start.row as int]@,
            start.row >= buf@.len() ==> final(self)@ == old(self)@,
            line_wf(final(self)@) || final(self)@ == old(self)@,
    {
        if start.row < buf.len() {
            let line = buffer::clone_chars(&buf[start.row]);
            proof {
                assert(doc_view(buf@)[start.row as int] == buf@[start.row as int]@);
            }
            self.yank = line;
        }
    }

    /// How many characters the slot holds.
    pub fn yanked_len(&self) -> (n: usize)
        ensures
            n == self@.len(),
    {
        self.yank.len()
    }

    /// Paste the slot's content as a fresh line at the given row, pushing the
    /// line that stood there downwards, and record the insertion for undo.
    pub fn past(&self, row: usize, buf: Vec<Vec<char>>, undo: &mut Undo) -> (r: Vec<Vec<char>>)
        requires
            line_wf(self@),
            old(undo).wf(),
            row < buf@.len() ==> buf@[row as int]@.len() + self@.len() + 1 <= usize::MAX,
        ensures
            doc_view(r@) == insert_spec(doc_view(buf@), Point { column: 0, row }, self@ + seq!['\n']),
            final(undo).wf(),
            final(undo).undo_stack() == hist_add_spec(
                old(undo).undo_stack(),
                RecordModel {
                    ope: EditOperation::ADD,
                    target: self@ + seq!['\n'],
                    position: Point { column: 0, row },
                },
            ),
            final(undo).redo_stack() == old(undo).redo_stack(),
    {
        let mut tmp = buffer::clone_chars(&self.yank);
        tmp.push('\n');
        let mut ret = buf;
        proof {
            assert(tmp@ =~= self@ + seq!['\n']);
            assert(run_wf(tmp@)) by {
                assert forall|i: int| 0 <= i < tmp@.len() - 1 implies tmp@[i] != '\n' by {
                    assert(tmp@[i] == self@[i]);
                }
            }
            if row < ret@.len() {
                assert(doc_view(ret@)[row as int] == ret@[row as int]@);
            }
        }
        buffer::insert(&mut ret, Point { column: 0, row }, &tmp);
        undo.add_do_history(EditOperation::ADD, tmp, Point { column: 0, row });
        ret
    }
}

/// Every record's run in a stack keeps a line-break only as its final
/// character.
pub open spec fn stack_wf(s: Seq<RecordModel>) -> bool {
    forall|i: int| 0 <= i < s.len() ==> run_wf(#[trigger] s[i].target)
}

/// The two history stacks of the editing session.
pub struct Undo {
    history: History,
    undo_history: History,
}

/// Whether a record's inverse delete can act on the given document.
pub open spec fn applicable_delete(doc: Seq<Seq<char>>, rec: RecordModel) -> bool {
    rec.position.row < doc.len() && rec.position.column <= doc[rec.position.row as int].len()
}

/// Whether a record's inverse insert can act on the given document.
pub open spec fn applicable_insert(doc: Seq<Seq<char>>, rec: RecordModel) -> bool {
    insert_pos_ok(doc, rec.position) && (rec.position.row < doc.len()
        ==> doc[rec.position.row as int].len() + rec.target.len() <= usize::MAX)
}

/// One history step: pop the top record of `from`, apply its inverse to the
/// document, and push the opposite record onto `to`.  An empty stack, a
/// non-edit record, or a record whose anchor no longer fits the document is
/// a no-op on the document.  The reported point is the record's anchor, the
/// sentinel origin when the stack was empty.
pub open spec fn undo_step(
    doc: Seq<Seq<char>>,
    from: Seq<RecordModel>,
    to: Seq<RecordModel>,
) -> (Seq<Seq<char>>, Seq<RecordModel>, Seq<RecordModel>, Point) {
    if from.len() == 0 {
        (doc, from, to, Point { column: 0, row: 0 })
    } else {
        let rec = from.last();
        let rest = from.drop_last();
        if rec.ope == EditOperation::ADD && applicable_delete(doc, rec) {
            (
                delete_spec(doc, rec.position, rec.target.len()).0,
                rest,
                hist_add_spec(
                    to,
                    RecordModel { ope: EditOperation::DELETE, target: rec.target, position: rec.position },
                ),
                rec.position,
            )
        } else if rec.ope == EditOperation::DELETE && applicable_insert(doc, rec) {
            (
                insert_spec(doc, rec.position, rec.target),
                rest,
                hist_add_spec(
                    to,
                    RecordModel { ope: EditOperation::ADD, target: rec.target, position: rec.position },
                ),
                rec.position,
            )
        } else {
            (doc, rest, to, rec.position)
        }
    }
}

proof fn lemma_stack_wf_add(s: Seq<RecordModel>, r: RecordModel)
    requires
        stack_wf(s),
        run_wf(r.target),
    ensures
        stack_wf(hist_add_spec(s, r)),
{
    let t = hist_add_spec(s, r);
    assert forall|i: int| 0 <= i < t.len() implies run_wf(#[trigger] t[i].target) by {
        if i < t.len() - 1 {
            if s.len() >= crate::history::HISTORY_CAPACITY {
                assert(t[i] == s[i + 1]);
            } else {
                assert(t[i] == s[i]);
            }
        } else {
            assert(t[i] == r);
        }
    }
}

proof fn lemma_stack_wf_drop(s: Seq<RecordModel>)
    requires
        stack_wf(s),
        s.len() > 0,
    ensures
        stack_wf(s.drop_last()),
{
    assert forall|i: int| 0 <= i < s.drop_last().len() implies run_wf(
        #[trigger] s.drop_last()[i].target,
    ) by {
        assert(s.drop_last()[i] == s[i]);
    }
}

impl Undo {
    /// The stack that `undo` draws from.
    pub closed spec fn undo_stack(&self) -> Seq<RecordModel> {
        self.history@
    }

    /// The stack that `redo` draws from.
    pub closed spec fn redo_stack(&self) -> Seq<RecordModel> {
        self.undo_history@
    }

    /// Both stacks hold only records with well-formed runs.
    pub open spec fn wf(&self) -> bool {
        stack_wf(self.undo_stack()) && stack_wf(self.redo_stack())
    }

    pub fn new() -> (u: Undo)
        ensures
            u.undo_stack() == Seq::<RecordModel>::empty(),
            u.redo_stack() == Seq::<RecordModel>::empty(),
            u.wf(),
    {
        Undo { history: History::new(), undo_history: History::new() }
    }

    /// Record a just-performed edit on the undo stack; an empty run records
    /// nothing.
    pub fn add_do_history(&mut self, op: EditOperation, target: Vec<char>, pos: Point)
        requires
            run_wf(target@),
            old(self).wf(),
        ensures
            final(self).wf(),
            target@.len() > 0 ==> final(self).undo_stack() == hist_add_spec(
                old(self).undo_stack(),
                RecordModel { ope: op, target: target@, position: pos },
            ),
            target@.len() == 0 ==> final(self).undo_stack() == old(self).undo_stack(),
            final(self).redo_stack() == old(self).redo_stack(),
    {
        if target.len() > 0 {
            proof {
                lemma_stack_wf_add(
                    self.undo_stack(),
                    RecordModel { ope: op, target: target@, position: pos },
                );
            }
            self.history.add(op, target, pos);
        }
    }

    /// Take one step through history in the given direction, as
    /// [`undo_step`] describes, and report the anchor to place the cursor on.
    pub fn undo(&mut self, buf: &mut Vec<Vec<char>>, direction: UndoDirection) -> (pos: Point)
        requires
            old(self).wf(),
        ensures
            final(self).wf(),
            direction == UndoDirection::Undo ==> (
                doc_view(final(buf)@),
                final(self).undo_stack(),
                final(self).redo_stack(),
                pos,
            ) == undo_step(doc_view(old(buf)@), old(self).undo_stack(), old(self).redo_stack()),
            direction == UndoDirection::Redo ==> (
                doc_view(final(buf)@),
                final(self).redo_stack(),
                final(self).undo_stack(),
                pos,
            ) == undo_step(doc_view(old(buf)@), old(self).redo_stack(), old(self).undo_stack()),
    {
        let ghost from0 = if direction == UndoDirection::Undo {
            self.undo_stack()
        } else {
            self.redo_stack()
        };
        let record = match direction {
            UndoDirection::Undo => self.history.undo(),
            UndoDirection::Redo => self.undo_history.undo(),
        };
        let p = record.get_pos();
        let target = record.get_target();
        proof {
            if from0.len() > 0 {
                assert(record@ == from0.last());
                assert(run_wf(from0.last().target));
                lemma_stack_wf_drop(from0);
            }
        }
        match record.get_operation() {
            EditOperation::ADD => {
                let applicable = p.row < buf.len() && p.column <= buf[p.row].len();
                proof {
                    assert(p.row < buf@.len() ==> doc_view(buf@)[p.row as int] == buf@[p.row as int]@);
                    assert(applicable == applicable_delete(doc_view(buf@), record@));
                }
                if applicable {
                    let _run = buffer::delete(buf, p, target.len());
                    proof {
                        lemma_stack_wf_add(
                            if direction == UndoDirection::Undo {
                                self.redo_stack()
                            } else {
                                self.undo_stack()
                            },
                            RecordModel { ope: EditOperation::DELETE, target: target@, position: p },
                        );
                    }
                    match direction {
                        UndoDirection::Undo => self.undo_history.add(EditOperation::DELETE, target, p),
                        UndoDirection::Redo => self.history.add(EditOperation::DELETE, target, p),
                    }
                }
                p
            },
            EditOperation::DELETE => {
                let applicable = if p.row < buf.len() {
                    let line_len = buf[p.row].len();
                    p.column <= line_len && line_len <= usize::MAX - target.len()
                } else {
                    true
                };
                proof {
                    assert(p.row < buf@.len() ==> doc_view(buf@)[p.row as int] == buf@[p.row as int]@);
                    assert(applicable == applicable_insert(doc_view(buf@), record@));
                }
                if applicable {
                    buffer::insert(buf, p, &target);
                    proof {
                        lemma_stack_wf_add(
                            if direction == UndoDirection::Undo {
                                self.redo_stack()
                            } else {
                                self.undo_stack()
                            },
                            RecordModel { ope: EditOperation::ADD, target: target@, position: p },
                        );
                    }
                    match direction {
                        UndoDirection::Undo => self.undo_history.add(EditOperation::ADD, target, p),
                        UndoDirection::Redo => self.history.add(EditOperation::ADD, target, p),
                    }
                }
                p
            },
            _ => p,
        }
    }
}

/// A history step keeps every document line free of embedded line-breaks.
pub proof fn lemma_undo_step_preserves_wf(
    doc: Seq<Seq<char>>,
    from: Seq<RecordModel>,
    to: Seq<RecordModel>,
)
    requires
        doc_wf(doc),
        stack_wf(from),
    ensures
        doc_wf(undo_step(doc, from, to).0),
{
    if from.len() > 0 {
        let rec = from.last();
        assert(run_wf(rec.target));
        if rec.ope == EditOperation::ADD && applicable_delete(doc, rec) {
            buffer::lemma_delete_preserves_wf(doc, rec.position, rec.target.len());
        } else if rec.ope == EditOperation::DELETE && applicable_insert(doc, rec) {
            buffer::lemma_insert_preserves_wf(doc, rec.position, rec.target);
        }
    }
}

/// History symmetry for insertions: after performing an insert and recording
/// it, one undo step restores the pre-edit document and reports the edit's
/// anchor, leaving the inverse on the redo stack; one redo step then
/// re-applies the edit exactly.
pub proof fn lemma_undo_redo_insert(
    doc: Seq<Seq<char>>,
    undo0: Seq<RecordModel>,
    redo0: Seq<RecordModel>,
    pos: Point,
    text: Seq<char>,
)
    requires
        pos.row < doc.len(),
        pos.column <= doc[pos.row as int].len(),
        0 < text.len(),
        doc[pos.row as int].len() + text.len() <= usize::MAX,
    ensures
        ({
            let done = insert_spec(doc, pos, text);
            let rec = RecordModel { ope: EditOperation::ADD, target: text, position: pos };
            let stepu = undo_step(done, hist_add_spec(undo0, rec), redo0);
            let stepr = undo_step(stepu.0, stepu.2, stepu.1);
            &&& stepu.0 == doc
            &&& stepu.3 == pos
            &&& stepr.0 == done
            &&& stepr.3 == pos
        }),
{
    let row = pos.row as int;
    let col = pos.column as int;
    let done = insert_spec(doc, pos, text);
    let rec = RecordModel { ope: EditOperation::ADD, target: text, position: pos };
    let undo1 = hist_add_spec(undo0, rec);
    lemma_hist_add_shape(undo0, rec);
    if text.last() == '\n' {
        doc.update(row, doc[row].take(col) + text.drop_last()).insert_ensures(
            row + 1,
            doc[row].skip(col),
        );
        assert(done[row] == doc[row].take(col) + text.drop_last());
        assert(col <= done[row].len());
    } else {
        assert(done[row] == doc[row].take(col) + text + doc[row].skip(col));
        assert(col <= done[row].len());
    }
    assert(applicable_delete(done, rec));
    buffer::lemma_insert_then_delete(doc, pos, text);
    let stepu = undo_step(done, undo1, redo0);
    assert(stepu.0 == doc);
    assert(stepu.3 == pos);
    let inv = RecordModel { ope: EditOperation::DELETE, target: text, position: pos };
    assert(stepu.2 == hist_add_spec(redo0, inv));
    lemma_hist_add_shape(redo0, inv);
    assert(applicable_insert(doc, inv));
    let stepr = undo_step(stepu.0, stepu.2, stepu.1);
    assert(stepr.0 == done);
    assert(stepr.3 == pos);
}

/// History symmetry for single-character deletions: after performing the
/// delete and recording the run it removed, one undo step re-inserts that
/// run, restoring the pre-edit document and reporting the edit's anchor; one
/// redo step then re-applies the deletion exactly.
pub proof fn lemma_undo_redo_delete(
    doc: Seq<Seq<char>>,
    undo0: Seq<RecordModel>,
    redo0: Seq<RecordModel>,
    pos: Point,
)
    requires
        doc_wf(doc),
        pos.row < doc.len(),
        pos.column <= doc[pos.row as int].len(),
        pos.column < doc[pos.row as int].len() || pos.row + 1 < doc.len(),
        doc[pos.row as int].len() + (if pos.row + 1 < doc.len() {
            doc[pos.row as int + 1].len()
        } else {
            0
        }) + 1 <= usize::MAX,
    ensures
        ({
            let done = delete_spec(doc, pos, 1);
            let rec = RecordModel { ope: EditOperation::DELETE, target: done.1, position: pos };
            let stepu = undo_step(done.0, hist_add_spec(undo0, rec), redo0);
            let stepr = undo_step(stepu.0, stepu.2, stepu.1);
            &&& stepu.0 == doc
            &&& stepu.3 == pos
            &&& stepr.0 == done.0
            &&& stepr.3 == pos
        }),
{
    reveal_with_fuel(delete_spec, 2);
    let row = pos.row as int;
    let col = pos.column as int;
    let line = doc[row];
    let done = delete_spec(doc, pos, 1);
    let rec = RecordModel { ope: EditOperation::DELETE, target: done.1, position: pos };
    let undo1 = hist_add_spec(undo0, rec);
    lemma_hist_add_shape(undo0, rec);
    if col < line.len() {
        assert(done.1 =~= seq![line[col]]);
        assert(done.0[row] == line.remove(col));
        assert(done.0[row].len() == line.len() - 1);
    } else {
        assert(done.1 =~= seq!['\n']);
        let merged = doc.update(row, line + doc[row + 1]).remove(row + 1);
        assert(done.0 == merged);
        assert(done.0[row] == line + doc[row + 1]);
    }
    assert(applicable_insert(done.0, rec));
    buffer::lemma_delete_one_then_insert(doc, pos);
    let stepu = undo_step(done.0, undo1, redo0);
    assert(stepu.0 == doc);
    assert(stepu.3 == pos);
    let inv = RecordModel { ope: EditOperation::ADD, target: done.1, position: pos };
    assert(stepu.2 == hist_add_spec(redo0, inv));
    lemma_hist_add_shape(redo0, inv);
    assert(applicable_delete(doc, inv));
    let stepr = undo_step(stepu.0, stepu.2, stepu.1);
    assert(delete_spec(doc, pos, done.1.len()) == done);
    assert(stepr.0 == done.0);
    assert(stepr.3 == pos);
}

} // verus!
