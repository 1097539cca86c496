//! Bounded stacks of inverse edit records, the raw material of undo/redo.
//!
//! A [`History`] is a stack of [`HistoryRecord`]s capped at
//! [`HISTORY_CAPACITY`] entries; pushing onto a full stack evicts the oldest
//! record, so only the most recent `HISTORY_CAPACITY` edits stay reachable.

use vstd::prelude::*;

use crate::coordinate::Point;

verus! {

/// Upper bound on the records a history stack retains; adding beyond it
/// evicts the oldest record.
pub const HISTORY_CAPACITY: usize = 999;

/// What an edit did: characters were added or deleted.  `HEAD` is the
/// sentinel handed out when a stack runs empty; `COMMAND` is reserved for
/// non-edit entries and is skipped by the undo engine.
#[derive(Clone, Copy, Debug, PartialEq, Eq, Structural)]
pub enum EditOperation {
    HEAD,
    ADD,
    DELETE,
    COMMAND,
}

/// One entry of a history stack: which kind of edit happened, the affected
/// character run (possibly ending in a line-break marker) and its anchor.
#[derive(Clone, Debug)]
pub struct HistoryRecord {
    ope: EditOperation,
    target: Vec<char>,
    position: Point,
}

/// Mathematical image of a [`HistoryRecord`].
pub struct RecordModel {
    pub ope: EditOperation,
    pub target: Seq<char>,
    pub position: Point,
}

impl View for HistoryRecord {
    type V = RecordModel;

    closed spec fn view(&self) -> RecordModel {
        RecordModel { ope: self.ope, target: self.target@, position: self.position }
    }
}

/// The record a stack hands out when asked to pop while empty.
pub open spec fn head_record() -> RecordModel {
    RecordModel { ope: EditOperation::HEAD, target: Seq::empty(), position: Point { column: 0, row: 0 } }
}

/// A bounded stack of history records.
pub struct History {
    history: Vec<HistoryRecord>,
}

impl View for History {
    type V = Seq<RecordModel>;

    closed spec fn view(&self) -> Seq<RecordModel> {
        self.history@.map_values(|r: HistoryRecord| r@)
    }
}

/// What one `add` does to a stack: push the record, evicting the oldest
/// entry first when the stack is at capacity.
pub open spec fn hist_add_spec(s: Seq<RecordModel>, r: RecordModel) -> Seq<RecordModel> {
    if s.len() >= HISTORY_CAPACITY {
        s.subrange(1, s.len() as int).push(r)
    } else {
        s.push(r)
    }
}

/// The stack left by a whole series of `add`s, oldest first, starting from
/// an empty stack.
pub open spec fn add_all(records: Seq<RecordModel>) -> Seq<RecordModel>
    decreases records.len(),
{
    if records.len() == 0 {
        Seq::empty()
    } else {
        hist_add_spec(add_all(records.drop_last()), records.last())
    }
}

impl HistoryRecord {
    pub fn new(operation: EditOperation, input: Vec<char>, pos: Point) -> (r: HistoryRecord)
        ensures
            r@ == (RecordModel { ope: operation, target: input@, position: pos }),
    {
        HistoryRecord { ope: operation, target: input, position: pos }
    }

    pub fn get_operation(&self) -> (ope: EditOperation)
        ensures
            ope == self@.ope,
    {
        self.ope
    }

    pub fn get_pos(&self) -> (pos: Point)
        ensures
            pos == self@.position,
    {
        self.position
    }

    pub fn get_target(&self) -> (target: Vec<char>)
        ensures
            target@ == self@.target,
    {
        let target = self.target.clone();
        proof {
            assert forall|i: int| 0 <= i < target@.len() implies target@[i] == self.target@[i] by {
                assert(cloned::<char>(self.target@[i], target@[i]));
            }
            assert(target@ =~= self.target@);
        }
        target
    }
}

impl History {
    pub fn new() -> (h: History)
        ensures
            h@ == Seq::<RecordModel>::empty(),
    {
        let h = History { history: Vec::with_capacity(1000) };
        proof {
            assert(h@ =~= Seq::<RecordModel>::empty());
        }
        h
    }

    pub fn add(&mut self, ope: EditOperation, target: Vec<char>, pos: Point)
        ensures
            final(self)@ == hist_add_spec(
                old(self)@,
                RecordModel { ope, target: target@, position: pos },
            ),
    {
        let ghost rec = RecordModel { ope, target: target@, position: pos };
        if self.history.len() >= HISTORY_CAPACITY {
            self.history.remove(0);
            proof {
                assert(self@ =~= old(self)@.subrange(1, old(self)@.len() as int));
            }
        }
        let ghost mid = self@;
        self.history.push(HistoryRecord::new(ope, target, pos));
        proof {
            assert(self@ =~= mid.push(rec));
        }
    }

    pub fn undo(&mut self) -> (r: HistoryRecord)
        ensures
            old(self)@.len() == 0 ==> final(self)@ == old(self)@ && r@ == head_record(),
            old(self)@.len() > 0 ==> final(self)@ == old(self)@.drop_last() && r@ == old(self)@.last(),
    {
        match self.history.pop() {
            Some(t) => {
                proof {
                    assert(self@ =~= old(self)@.drop_last());
                }
                t
            },
            None => {
                let empty: Vec<char> = Vec::new();
                proof {
                    assert(empty@ =~= Seq::<char>::empty());
                }
                HistoryRecord::new(EditOperation::HEAD, empty, Point { column: 0, row: 0 })
            },
        }
    }
}

/// Adding always leaves the new record on top, with the rest of the stack
/// below it (shortened by one when the add evicted).
pub proof fn lemma_hist_add_shape(s: Seq<RecordModel>, r: RecordModel)
    ensures
        hist_add_spec(s, r).len() >= 1,
        hist_add_spec(s, r).last() == r,
        hist_add_spec(s, r).drop_last() == if s.len() >= HISTORY_CAPACITY {
            s.subrange(1, s.len() as int)
        } else {
            s
        },
{
    if s.len() >= HISTORY_CAPACITY {
        let t = s.subrange(1, s.len() as int);
        assert(t.push(r).last() == r);
        assert(t.push(r).drop_last() =~= t);
    } else {
        assert(s.push(r).last() == r);
        assert(s.push(r).drop_last() =~= s);
    }
}

/// Capacity law: a stack that only ever grew by `add` holds exactly the most
/// recent records — all of them while no more than [`HISTORY_CAPACITY`] have
/// been added, and afterwards exactly the last [`HISTORY_CAPACITY`] of them;
/// everything older has been evicted for good.
pub proof fn lemma_history_capacity(records: Seq<RecordModel>)
    ensures
        records.len() <= HISTORY_CAPACITY ==> add_all(records) == records,
        records.len() > HISTORY_CAPACITY ==> add_all(records) == records.subrange(
            records.len() - HISTORY_CAPACITY,
            records.len() as int,
        ),
    decreases records.len(),
{
    if records.len() == 0 {
        assert(add_all(records) =~= records);
    } else {
        let prefix = records.drop_last();
        lemma_history_capacity(prefix);
        if records.len() <= HISTORY_CAPACITY {
            assert(add_all(records) =~= records);
        } else if records.len() == HISTORY_CAPACITY + 1 {
            // the first eviction: the stack was exactly full before this add
            assert(add_all(records) =~= records.subrange(1, records.len() as int));
        } else {
            assert(add_all(records) =~= records.subrange(
                records.len() - HISTORY_CAPACITY,
                records.len() as int,
            ));
        }
    }
}

} // verus!
