use modal_edit::coordinate::Point;
use modal_edit::history::{EditOperation, History, HistoryRecord, HISTORY_CAPACITY};

#[test]
fn record_getters_hand_back_fields() {
    let rec = HistoryRecord::new(
        EditOperation::ADD,
        vec!['a', 'b'],
        Point { column: 3, row: 7 },
    );
    assert!(matches!(rec.get_operation(), EditOperation::ADD));
    assert_eq!(rec.get_pos(), Point { column: 3, row: 7 });
    assert_eq!(rec.get_target(), vec!['a', 'b']);
}

#[test]
fn undo_pops_most_recent_record() {
    let mut h = History::new();
    h.add(EditOperation::ADD, vec!['x'], Point { column: 0, row: 0 });
    h.add(EditOperation::DELETE, vec!['y'], Point { column: 1, row: 0 });
    let rec = h.undo();
    assert!(matches!(rec.get_operation(), EditOperation::DELETE));
    assert_eq!(rec.get_target(), vec!['y']);
    let rec = h.undo();
    assert!(matches!(rec.get_operation(), EditOperation::ADD));
    assert_eq!(rec.get_target(), vec!['x']);
}

#[test]
fn undo_on_empty_stack_returns_head_sentinel() {
    let mut h = History::new();
    let rec = h.undo();
    assert!(matches!(rec.get_operation(), EditOperation::HEAD));
    assert_eq!(rec.get_pos(), Point { column: 0, row: 0 });
    assert_eq!(rec.get_target(), Vec::<char>::new());
}

#[test]
fn capacity_evicts_oldest_record() {
    // one more add than the capacity: the very first record is gone for
    // good, and the stack holds exactly the most recent ones
    let mut h = History::new();
    for i in 0..(HISTORY_CAPACITY + 1) {
        h.add(EditOperation::ADD, vec!['a'], Point { column: i, row: 0 });
    }
    // popping everything yields the records with columns capacity..=1, and
    // then only the sentinel: record 0 was evicted
    for i in (1..(HISTORY_CAPACITY + 1)).rev() {
        let rec = h.undo();
        assert!(matches!(rec.get_operation(), EditOperation::ADD));
        assert_eq!(rec.get_pos(), Point { column: i, row: 0 });
    }
    let rec = h.undo();
    assert!(matches!(rec.get_operation(), EditOperation::HEAD));
}
