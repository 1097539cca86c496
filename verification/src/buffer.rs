//! The line-oriented edit primitives.
//!
//! A document is a sequence of lines, each line a sequence of characters with
//! no embedded line-break.  [`insert`] splices a character run into the
//! document (splitting the target line when the run ends in a line-break);
//! [`delete`] removes characters scanning forward, merging in the next line
//! whenever the scan passes the end of the current one, and returns the exact
//! run it removed so that the caller can record an inverse for undo.

use vstd::prelude::*;

use crate::coordinate::Point;

verus! {

/// The lines of a document, as mathematical sequences.
pub open spec fn doc_view(buf: Seq<Vec<char>>) -> Seq<Seq<char>> {
    buf.map_values(|line: Vec<char>| line@)
}

/// A line never contains an embedded line-break.
pub open spec fn line_wf(line: Seq<char>) -> bool {
    forall|i: int| 0 <= i < line.len() ==> line[i] != '\n'
}

/// The document invariant: every line is break-free.
pub open spec fn doc_wf(doc: Seq<Seq<char>>) -> bool {
    forall|r: int| 0 <= r < doc.len() ==> line_wf(#[trigger] doc[r])
}

/// A character run as recorded in history: a line-break may stand only as
/// its final character.
pub open spec fn run_wf(text: Seq<char>) -> bool {
    forall|i: int| 0 <= i < text.len() - 1 ==> text[i] != '\n'
}

/// An anchor the insert primitive accepts: within an existing line the
/// column may be at most one past the last character; at or beyond the last
/// line the run is appended as a new line and the column is ignored.
pub open spec fn insert_pos_ok(doc: Seq<Seq<char>>, pos: Point) -> bool {
    pos.row < doc.len() ==> pos.column <= doc[pos.row as int].len()
}

/// What [`insert`] produces.  A run ending in a line-break splits the target
/// line at the anchor column, the run's body going to the head part; any
/// other run is spliced into the line.  An anchor at or past the last line
/// appends the run's body as a fresh line.
pub open spec fn insert_spec(doc: Seq<Seq<char>>, pos: Point, text: Seq<char>) -> Seq<Seq<char>> {
    let row = pos.row as int;
    let col = pos.column as int;
    if text.len() == 0 {
        doc
    } else if row >= doc.len() {
        doc.push(if text.last() == '\n' { text.drop_last() } else { text })
    } else if text.last() == '\n' {
        doc.update(row, doc[row].take(col) + text.drop_last()).insert(row + 1, doc[row].skip(col))
    } else {
        doc.update(row, doc[row].take(col) + text + doc[row].skip(col))
    }
}

/// What [`delete`] produces: the document after removing up to `len`
/// characters forward from the anchor, paired with the run removed.  Passing
/// the end of a line consumes a line-break marker and merges the next line
/// on; the scan stops early at the end of the document or at an anchor that
/// is out of range.
pub open spec fn delete_spec(doc: Seq<Seq<char>>, pos: Point, len: nat) -> (Seq<Seq<char>>, Seq<char>)
    decreases len,
{
    let row = pos.row as int;
    let col = pos.column as int;
    if len == 0 || row >= doc.len() || col > doc[row].len() {
        (doc, Seq::empty())
    } else if col < doc[row].len() {
        let c = doc[row][col];
        let rest = delete_spec(doc.update(row, doc[row].remove(col)), pos, (len - 1) as nat);
        (rest.0, seq![c] + rest.1)
    } else if row + 1 < doc.len() {
        let merged = doc.update(row, doc[row] + doc[row + 1]).remove(row + 1);
        let rest = delete_spec(merged, pos, (len - 1) as nat);
        (rest.0, seq!['\n'] + rest.1)
    } else {
        (doc, Seq::empty())
    }
}

/// An exact copy of a character run.
pub fn clone_chars(v: &Vec<char>) -> (r: Vec<char>)
    ensures
        r@ == v@,
{
    let r = v.clone();
    proof {
        assert forall|i: int| 0 <= i < r@.len() implies r@[i] == v@[i] by {
            assert(cloned::<char>(v@[i], r@[i]));
        }
        assert(r@ =~= v@);
    }
    r
}

/// Splice a character run into the document at `pos`, as [`insert_spec`]
/// describes.
pub fn insert(buf: &mut Vec<Vec<char>>, pos: Point, text: &Vec<char>)
    requires
        insert_pos_ok(doc_view(old(buf)@), pos),
        run_wf(text@),
        pos.row < old(buf)@.len() ==> old(buf)@[pos.row as int]@.len() + text@.len() <= usize::MAX,
    ensures
        doc_view(final(buf)@) == insert_spec(doc_view(old(buf)@), pos, text@),
{
    let ghost doc0 = doc_view(old(buf)@);
    if text.len() == 0 {
        return;
    }
    let is_break = text[text.len() - 1] == '\n';
    let body_len = if is_break { text.len() - 1 } else { text.len() };
    if pos.row >= buf.len() {
        let mut line: Vec<char> = Vec::new();
        let mut i: usize = 0;
        while i < body_len
            invariant
                i <= body_len,
                body_len <= text@.len(),
                line@ == text@.take(i as int),
            decreases body_len - i,
        {
            line.push(text[i]);
            proof {
                assert(line@ =~= text@.take(i + 1));
            }
            i += 1;
        }
        buf.push(line);
        proof {
            assert(text@.take(body_len as int) =~= if is_break { text@.drop_last() } else { text@ });
            assert(doc_view(buf@) =~= insert_spec(doc0, pos, text@));
        }
    } else if is_break {
        let mut line = buf.remove(pos.row);
        let ghost orig_line = line@;
        let tail = line.split_off(pos.column);
        let mut i: usize = 0;
        while i < body_len
            invariant
                i <= body_len,
                body_len < text@.len(),
                line@ == orig_line.take(pos.column as int) + text@.take(i as int),
            decreases body_len - i,
        {
            line.push(text[i]);
            proof {
                assert(line@ =~= orig_line.take(pos.column as int) + text@.take(i + 1));
            }
            i += 1;
        }
        buf.insert(pos.row, line);
        buf.insert(pos.row + 1, tail);
        proof {
            assert(text@.take(body_len as int) =~= text@.drop_last());
            assert(doc_view(buf@) =~~= insert_spec(doc0, pos, text@));
        }
    } else {
        let mut line = buf.remove(pos.row);
        let ghost orig_line = line@;
        let mut i: usize = 0;
        while i < body_len
            invariant
                i <= body_len,
                body_len == text@.len(),
                pos.column + body_len <= usize::MAX,
                pos.column <= orig_line.len(),
                line@ == orig_line.take(pos.column as int) + text@.take(i as int) + orig_line.skip(
                    pos.column as int,
                ),
            decreases body_len - i,
        {
            line.insert(pos.column + i, text[i]);
            proof {
                assert(line@ =~= orig_line.take(pos.column as int) + text@.take(i + 1)
                    + orig_line.skip(pos.column as int));
            }
            i += 1;
        }
        proof {
            assert(orig_line.take(pos.column as int) + text@.take(body_len as int) + orig_line.skip(
                pos.column as int,
            ) =~= orig_line.take(pos.column as int) + text@ + orig_line.skip(pos.column as int));
        }
        buf.insert(pos.row, line);
        proof {
            assert(doc_view(buf@) =~~= insert_spec(doc0, pos, text@));
        }
    }
}

/// Remove up to `length` characters forward from `pos`, as [`delete_spec`]
/// describes, and hand back exactly the run removed.
pub fn delete(buf: &mut Vec<Vec<char>>, pos: Point, length: usize) -> (deleted: Vec<char>)
    ensures
        doc_view(final(buf)@) == delete_spec(doc_view(old(buf)@), pos, length as nat).0,
        deleted@ == delete_spec(doc_view(old(buf)@), pos, length as nat).1,
{
    let ghost goal = delete_spec(doc_view(old(buf)@), pos, length as nat);
    let mut deleted: Vec<char> = Vec::new();
    let mut k: usize = 0;
    let mut active = true;
    while active && k < length
        invariant
            k <= length,
            active ==> goal.0 == delete_spec(doc_view(buf@), pos, (length - k) as nat).0,
            active ==> goal.1 == deleted@ + delete_spec(doc_view(buf@), pos, (length - k) as nat).1,
            !active ==> goal.0 == doc_view(buf@),
            !active ==> goal.1 == deleted@,
        decreases length - k, (if active { 1int } else { 0int }),
    {
        let ghost cur = doc_view(buf@);
        let ghost rem = (length - k) as nat;
        if pos.row >= buf.len() {
            active = false;
            proof {
                assert(delete_spec(cur, pos, rem).0 == cur);
                assert(goal.1 =~= deleted@);
            }
        } else {
            let line_len = buf[pos.row].len();
            if pos.column < line_len {
                let line = &mut buf[pos.row];
                let c = line.remove(pos.column);
                deleted.push(c);
                proof {
                    assert(doc_view(buf@) =~~= cur.update(
                        pos.row as int,
                        cur[pos.row as int].remove(pos.column as int),
                    ));
                    assert(deleted@ + delete_spec(doc_view(buf@), pos, (rem - 1) as nat).1 =~= (
                    deleted@.drop_last() + (seq![c] + delete_spec(doc_view(buf@), pos, (rem - 1) as nat).1)));
                }
                k += 1;
            } else if pos.column == line_len && pos.row + 1 < buf.len() {
                let mut next = buf.remove(pos.row + 1);
                let line = &mut buf[pos.row];
                line.append(&mut next);
                deleted.push('\n');
                proof {
                    assert(doc_view(buf@) =~~= cur.update(
                        pos.row as int,
                        cur[pos.row as int] + cur[pos.row as int + 1],
                    ).remove(pos.row as int + 1));
                    assert(deleted@ + delete_spec(doc_view(buf@), pos, (rem - 1) as nat).1 =~= (
                    deleted@.drop_last() + (seq!['\n'] + delete_spec(doc_view(buf@), pos, (rem - 1) as nat).1)));
                }
                k += 1;
            } else {
                active = false;
                proof {
                    assert(delete_spec(cur, pos, rem).0 == cur);
                    assert(goal.1 =~= deleted@);
                }
            }
        }
    }
    proof {
        if active {
            assert(delete_spec(doc_view(buf@), pos, 0) == (doc_view(buf@), Seq::<char>::empty()));
            assert(goal.1 =~= deleted@);
        }
    }
    deleted
}

proof fn lemma_delete_within_line(doc2: Seq<Seq<char>>, pos: Point, rest: Seq<char>, suffix: Seq<char>, k: nat)
    requires
        pos.row < doc2.len(),
        pos.column <= doc2[pos.row as int].len(),
        doc2[pos.row as int] == doc2[pos.row as int].take(pos.column as int) + rest + suffix,
    ensures
        ({
            let stripped = doc2.update(
                pos.row as int,
                doc2[pos.row as int].take(pos.column as int) + suffix,
            );
            let tail = delete_spec(stripped, pos, k);
            delete_spec(doc2, pos, rest.len() + k) == (tail.0, rest + tail.1)
        }),
    decreases rest.len(),
{
    let row = pos.row as int;
    let col = pos.column as int;
    let line = doc2[row];
    let stripped = doc2.update(row, line.take(col) + suffix);
    let tail = delete_spec(stripped, pos, k);
    if rest.len() == 0 {
        assert(stripped =~~= doc2);
        assert(rest + tail.1 =~= tail.1);
    } else {
        assert(line[col] == rest[0]);
        let shrunk = line.remove(col);
        let doc3 = doc2.update(row, shrunk);
        assert(shrunk =~= line.take(col) + rest.skip(1) + suffix);
        assert(doc3[row].take(col) =~= line.take(col));
        assert(doc3[row] == doc3[row].take(col) + rest.skip(1) + suffix);
        lemma_delete_within_line(doc3, pos, rest.skip(1), suffix, k);
        assert(doc3.update(row, doc3[row].take(col) + suffix) =~~= stripped);
        let tail3 = delete_spec(doc3, pos, (rest.len() - 1 + k) as nat);
        assert(delete_spec(doc2, pos, rest.len() + k).1 == seq![rest[0]] + tail3.1);
        assert(seq![rest[0]] + (rest.skip(1) + tail.1) =~= rest + tail.1);
    }
}

/// Round-trip law: inserting a run and then deleting forward the same number
/// of characters from the same anchor restores the original document, and the
/// deleted run is exactly the run that was inserted.
pub proof fn lemma_insert_then_delete(doc: Seq<Seq<char>>, pos: Point, text: Seq<char>)
    requires
        pos.row < doc.len(),
        pos.column <= doc[pos.row as int].len(),
    ensures
        delete_spec(insert_spec(doc, pos, text), pos, text.len()) == (doc, text),
{
    let row = pos.row as int;
    let col = pos.column as int;
    let a = doc[row].take(col);
    let b = doc[row].skip(col);
    if text.len() == 0 {
        assert(delete_spec(doc, pos, 0).1 =~= text);
    } else if text.last() == '\n' {
        reveal_with_fuel(delete_spec, 3);
        let body = text.drop_last();
        let d1 = insert_spec(doc, pos, text);
        assert(d1 == doc.update(row, a + body).insert(row + 1, b));
        assert(d1[row] == a + body);
        assert(d1[row].take(col) =~= a);
        assert(d1[row] == d1[row].take(col) + body + Seq::<char>::empty());
        lemma_delete_within_line(d1, pos, body, Seq::empty(), 1);
        let stripped = d1.update(row, d1[row].take(col) + Seq::<char>::empty());
        assert(stripped[row] =~= a);
        assert(stripped[row + 1] == b);
        // one more deleted character: the line-break that merges `b` back on
        assert(col == stripped[row].len());
        assert(row + 1 < stripped.len());
        let merged = stripped.update(row, stripped[row] + stripped[row + 1]).remove(row + 1);
        assert(merged =~~= doc);
        let tail = delete_spec(stripped, pos, 1);
        assert(tail.0 == doc);
        assert(tail.1 =~= seq!['\n']);
        assert(body + seq!['\n'] =~= text);
        assert(delete_spec(d1, pos, text.len()).1 == body + tail.1);
    } else {
        let d1 = insert_spec(doc, pos, text);
        assert(d1 == doc.update(row, a + text + b));
        assert(d1[row].take(col) =~= a);
        assert(d1[row] == d1[row].take(col) + text + b);
        lemma_delete_within_line(d1, pos, text, b, 0);
        let stripped = d1.update(row, d1[row].take(col) + b);
        assert(stripped =~~= doc);
        let tail = delete_spec(stripped, pos, 0);
        assert(text + tail.1 =~= text);
    }
}

/// Converse round trip at character granularity: deleting one character
/// forward and re-inserting the run that came back restores the document.
pub proof fn lemma_delete_one_then_insert(doc: Seq<Seq<char>>, pos: Point)
    requires
        doc_wf(doc),
        pos.row < doc.len(),
        pos.column <= doc[pos.row as int].len(),
    ensures
        insert_spec(delete_spec(doc, pos, 1).0, pos, delete_spec(doc, pos, 1).1) == doc,
{
    reveal_with_fuel(delete_spec, 2);
    let row = pos.row as int;
    let col = pos.column as int;
    let line = doc[row];
    if col < line.len() {
        let c = line[col];
        assert(c != '\n');
        let done0 = doc.update(row, line.remove(col));
        assert(delete_spec(doc, pos, 1) == (done0, seq![c] + Seq::<char>::empty()));
        let run = seq![c] + Seq::<char>::empty();
        assert(run =~= seq![c]);
        assert(run.last() == c);
        assert(done0[row].len() == line.len() - 1);
        let spliced = done0[row].take(col) + run + done0[row].skip(col);
        assert(spliced =~= line);
        assert(insert_spec(done0, pos, run) =~~= doc);
    } else if row + 1 < doc.len() {
        let merged = doc.update(row, line + doc[row + 1]).remove(row + 1);
        assert(delete_spec(doc, pos, 1) == (merged, seq!['\n'] + Seq::<char>::empty()));
        let run = seq!['\n'] + Seq::<char>::empty();
        assert(run.last() == '\n');
        assert(merged[row] == line + doc[row + 1]);
        assert(col <= merged[row].len());
        assert(merged[row].take(col) + run.drop_last() =~= line);
        assert(merged[row].skip(col) =~= doc[row + 1]);
        assert(insert_spec(merged, pos, run) =~~= doc);
    } else {
        assert(delete_spec(doc, pos, 1) == (doc, Seq::<char>::empty()));
    }
}

/// Splitting law: a run that is just a line-break, inserted at column `c` of
/// an existing line `L`, splits it into `L[0..c]` and `L[c..]` as two
/// consecutive lines; every other line is carried over in order.
pub proof fn lemma_line_break_splits(doc: Seq<Seq<char>>, pos: Point)
    requires
        pos.row < doc.len(),
        pos.column <= doc[pos.row as int].len(),
    ensures
        ({
            let r = insert_spec(doc, pos, seq!['\n']);
            let row = pos.row as int;
            let col = pos.column as int;
            &&& r.len() == doc.len() + 1
            &&& r[row] == doc[row].take(col)
            &&& r[row + 1] == doc[row].skip(col)
            &&& forall|i: int| 0 <= i < row ==> r[i] == doc[i]
            &&& forall|i: int| row + 1 < i < r.len() ==> r[i] == doc[i - 1]
        }),
{
    let row = pos.row as int;
    let col = pos.column as int;
    let text: Seq<char> = seq!['\n'];
    assert(text.last() == '\n');
    assert(doc[row].take(col) + text.drop_last() =~= doc[row].take(col));
}

/// Joining law: deleting one character forward from the end of a line that
/// has a successor consumes exactly a line-break marker and merges the two
/// lines into their concatenation.
pub proof fn lemma_forward_delete_joins(doc: Seq<Seq<char>>, pos: Point)
    requires
        pos.row + 1 < doc.len(),
        pos.column == doc[pos.row as int].len(),
    ensures
        ({
            let r = delete_spec(doc, pos, 1);
            let row = pos.row as int;
            &&& r.1 == seq!['\n']
            &&& r.1.last() == '\n'
            &&& r.0.len() == doc.len() - 1
            &&& r.0[row] == doc[row] + doc[row + 1]
            &&& forall|i: int| 0 <= i < row ==> r.0[i] == doc[i]
            &&& forall|i: int| row < i < r.0.len() ==> r.0[i] == doc[i + 1]
        }),
{
    let row = pos.row as int;
    let merged = doc.update(row, doc[row] + doc[row + 1]).remove(row + 1);
    assert(delete_spec(merged, pos, 0) == (merged, Seq::<char>::empty()));
    assert(seq!['\n'] + Seq::<char>::empty() =~= seq!['\n']);
}

/// Inserting a well-formed run into a well-formed document leaves every line
/// free of embedded line-breaks.
proof fn lemma_concat_wf(x: Seq<char>, y: Seq<char>)
    requires
        line_wf(x),
        line_wf(y),
    ensures
        line_wf(x + y),
{
    assert forall|i: int| 0 <= i < (x + y).len() implies (x + y)[i] != '\n' by {
        if i < x.len() {
            assert((x + y)[i] == x[i]);
        } else {
            assert((x + y)[i] == y[i - x.len()]);
        }
    }
}

proof fn lemma_split_wf(line: Seq<char>, col: int)
    requires
        line_wf(line),
        0 <= col <= line.len(),
    ensures
        line_wf(line.take(col)),
        line_wf(line.skip(col)),
{
    assert forall|i: int| 0 <= i < line.take(col).len() implies line.take(col)[i] != '\n' by {
        assert(line.take(col)[i] == line[i]);
    }
    assert forall|i: int| 0 <= i < line.skip(col).len() implies line.skip(col)[i] != '\n' by {
        assert(line.skip(col)[i] == line[i + col]);
    }
}

pub proof fn lemma_insert_preserves_wf(doc: Seq<Seq<char>>, pos: Point, text: Seq<char>)
    requires
        doc_wf(doc),
        run_wf(text),
        insert_pos_ok(doc, pos),
    ensures
        doc_wf(insert_spec(doc, pos, text)),
{
    let row = pos.row as int;
    let col = pos.column as int;
    let r = insert_spec(doc, pos, text);
    if text.len() == 0 {
    } else if text.last() == '\n' {
        assert(line_wf(text.drop_last())) by {
            assert forall|i: int| 0 <= i < text.drop_last().len() implies text.drop_last()[i]
                != '\n' by {
                assert(text.drop_last()[i] == text[i]);
            }
        }
        if row >= doc.len() {
            assert forall|i: int| 0 <= i < r.len() implies line_wf(#[trigger] r[i]) by {}
        } else {
            lemma_split_wf(doc[row], col);
            lemma_concat_wf(doc[row].take(col), text.drop_last());
            assert forall|i: int| 0 <= i < r.len() implies line_wf(#[trigger] r[i]) by {
                doc.update(row, doc[row].take(col) + text.drop_last()).insert_ensures(
                    row + 1,
                    doc[row].skip(col),
                );
            }
        }
    } else {
        assert(line_wf(text)) by {
            assert(text.last() != '\n');
        }
        if row >= doc.len() {
            assert forall|i: int| 0 <= i < r.len() implies line_wf(#[trigger] r[i]) by {}
        } else {
            lemma_split_wf(doc[row], col);
            lemma_concat_wf(doc[row].take(col), text);
            lemma_concat_wf(doc[row].take(col) + text, doc[row].skip(col));
            assert forall|i: int| 0 <= i < r.len() implies line_wf(#[trigger] r[i]) by {}
        }
    }
}

/// Deleting from a well-formed document leaves every line free of embedded
/// line-breaks.
pub proof fn lemma_delete_preserves_wf(doc: Seq<Seq<char>>, pos: Point, len: nat)
    requires
        doc_wf(doc),
    ensures
        doc_wf(delete_spec(doc, pos, len).0),
    decreases len,
{
    let row = pos.row as int;
    let col = pos.column as int;
    if len == 0 || row >= doc.len() || col > doc[row].len() {
    } else if col < doc[row].len() {
        let shrunk = doc.update(row, doc[row].remove(col));
        assert(line_wf(doc[row].remove(col)));
        assert(doc_wf(shrunk));
        lemma_delete_preserves_wf(shrunk, pos, (len - 1) as nat);
    } else if row + 1 < doc.len() {
        let merged = doc.update(row, doc[row] + doc[row + 1]).remove(row + 1);
        assert(line_wf(doc[row] + doc[row + 1]));
        assert(doc_wf(merged));
        lemma_delete_preserves_wf(merged, pos, (len - 1) as nat);
    }
}

} // verus!
