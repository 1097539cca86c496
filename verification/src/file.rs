//! The document store: line-structured content, the read-only flag, the
//! backing path and the search-result bookkeeping.
//!
//! Loading and saving the file itself is I/O and lives outside the library;
//! the two conversions they need — splitting loaded text into lines and
//! flattening lines back into a text with a break after each line — are pure
//! and verified here.

use vstd::prelude::*;

use crate::buffer;
use crate::buffer::{doc_view, doc_wf, line_wf};
use crate::coordinate::Point;

verus! {

/// Index of the first line-break in a text, or its length if there is none.
pub open spec fn first_newline(text: Seq<char>) -> int
    decreases text.len(),
{
    if text.len() == 0 {
        0
    } else if text[0] == '\n' {
        0
    } else {
        1 + first_newline(text.skip(1))
    }
}

/// A carriage return directly before a line-break is part of the line
/// ending, not of the line.
pub open spec fn strip_cr(line: Seq<char>) -> Seq<char> {
    if line.len() > 0 && line.last() == '\r' {
        line.drop_last()
    } else {
        line
    }
}

/// The lines of a text: segments between line-breaks, each stripped of a
/// trailing carriage return; a final segment without a line-break is kept
/// unless it is empty, so a trailing line-break adds no line.
pub open spec fn split_lines_spec(text: Seq<char>) -> Seq<Seq<char>>
    decreases text.len(),
    via split_lines_spec_decreases
{
    if text.len() == 0 {
        Seq::empty()
    } else {
        let i = first_newline(text);
        if i == text.len() {
            seq![text]
        } else {
            seq![strip_cr(text.take(i))] + split_lines_spec(text.skip(i + 1))
        }
    }
}

#[via_fn]
proof fn split_lines_spec_decreases(text: Seq<char>) {
    lemma_first_newline_bounds(text);
}

/// The text that saving writes: every line followed by a line-break.
pub open spec fn join_lines_spec(doc: Seq<Seq<char>>) -> Seq<char>
    decreases doc.len(),
{
    if doc.len() == 0 {
        Seq::empty()
    } else {
        join_lines_spec(doc.drop_last()) + doc.last() + seq!['\n']
    }
}

proof fn lemma_first_newline_bounds(text: Seq<char>)
    ensures
        0 <= first_newline(text) <= text.len(),
        forall|j: int| 0 <= j < first_newline(text) ==> text[j] != '\n',
        first_newline(text) < text.len() ==> text[first_newline(text)] == '\n',
    decreases text.len(),
{
    if text.len() == 0 {
    } else if text[0] == '\n' {
    } else {
        lemma_first_newline_bounds(text.skip(1));
        assert forall|j: int| 0 <= j < first_newline(text) implies text[j] != '\n' by {
            if j > 0 {
                assert(text.skip(1)[j - 1] == text[j]);
            }
        }
        if first_newline(text) < text.len() {
            assert(text.skip(1)[first_newline(text) - 1] == text[first_newline(text)]);
        }
    }
}

proof fn lemma_first_newline_concat(a: Seq<char>, b: Seq<char>)
    requires
        forall|j: int| 0 <= j < a.len() ==> a[j] != '\n',
    ensures
        first_newline(a + b) == a.len() + first_newline(b),
    decreases a.len(),
{
    if a.len() == 0 {
        assert(a + b =~= b);
    } else {
        assert((a + b)[0] == a[0]);
        lemma_first_newline_concat(a.skip(1), b);
        assert((a + b).skip(1) =~= a.skip(1) + b);
    }
}

/// Split a text into its lines, as [`split_lines_spec`] describes.  Every
/// produced line is free of embedded line-breaks.
pub fn split_lines(text: &Vec<char>) -> (r: Vec<Vec<char>>)
    ensures
        doc_view(r@) == split_lines_spec(text@),
        doc_wf(doc_view(r@)),
{
    let mut r: Vec<Vec<char>> = Vec::new();
    let mut cur: Vec<char> = Vec::new();
    let mut i: usize = 0;
    proof {
        assert(cur@ + text@.skip(0) =~= text@);
        assert(doc_view(r@) + split_lines_spec(text@) =~= split_lines_spec(text@));
    }
    while i < text.len()
        invariant
            i <= text@.len(),
            line_wf(cur@),
            split_lines_spec(text@) == doc_view(r@) + split_lines_spec(cur@ + text@.skip(i as int)),
            doc_wf(doc_view(r@)),
        decreases text@.len() - i,
    {
        let ghost pending = cur@ + text@.skip(i as int);
        let ghost r0 = doc_view(r@);
        let ghost cur0 = cur@;
        let c = text[i];
        if c == '\n' {
            let mut line = cur;
            if line.len() > 0 && line[line.len() - 1] == '\r' {
                let _ = line.pop();
                proof {
                    assert(line@ =~= cur0.drop_last());
                }
            }
            proof {
                assert(text@.skip(i as int)[0] == '\n');
                lemma_first_newline_concat(cur0, text@.skip(i as int));
                assert(first_newline(pending) == cur0.len());
                assert(pending.take(cur0.len() as int) =~= cur0);
                assert(strip_cr(cur0) == line@);
                assert(pending.skip(cur0.len() as int + 1) =~= text@.skip(i + 1));
                assert(split_lines_spec(pending) == seq![line@] + split_lines_spec(
                    text@.skip(i + 1),
                ));
            }
            r.push(line);
            cur = Vec::new();
            proof {
                assert(doc_view(r@) =~= r0 + seq![line@]);
                assert(cur@ + text@.skip(i + 1) =~= text@.skip(i + 1));
                assert(split_lines_spec(text@) =~= doc_view(r@) + split_lines_spec(
                    cur@ + text@.skip(i + 1),
                ));
            }
        } else {
            cur.push(c);
            proof {
                assert(cur@ + text@.skip(i + 1) =~= pending);
                assert(cur@[cur@.len() - 1] == c);
            }
        }
        i += 1;
    }
    proof {
        assert(cur@ + text@.skip(i as int) =~= cur@);
    }
    if cur.len() > 0 {
        proof {
            lemma_first_newline_bounds(cur@);
            assert(first_newline(cur@) == cur@.len());
            assert(split_lines_spec(cur@) == seq![cur@]);
        }
        r.push(cur);
        proof {
            assert(doc_view(r@) =~= split_lines_spec(text@));
        }
    } else {
        proof {
            assert(split_lines_spec(cur@ + Seq::<char>::empty()) =~= Seq::<Seq<char>>::empty());
            assert(doc_view(r@) + Seq::<Seq<char>>::empty() =~= doc_view(r@));
        }
    }
    r
}

/// Position after one rotation of the search index: the next match, wrapping
/// to the first after the last.
pub open spec fn next_index_spec(i: int, n: int) -> int {
    if i + 1 < n {
        i + 1
    } else {
        0
    }
}

/// The search index after `k` rotations.
pub open spec fn iterate_next(i: int, k: nat, n: int) -> int
    decreases k,
{
    if k == 0 {
        i
    } else {
        next_index_spec(iterate_next(i, (k - 1) as nat, n), n)
    }
}

proof fn lemma_iterate_next_value(i: int, k: nat, n: int)
    requires
        0 < n,
        0 <= i < n,
        k <= n,
    ensures
        iterate_next(i, k, n) == if i + k < n {
            i + k
        } else {
            i + k - n
        },
    decreases k,
{
    if k > 0 {
        lemma_iterate_next_value(i, (k - 1) as nat, n);
    }
}

/// Rotation law: starting anywhere in a non-empty match list, `n` rotations
/// of the search index come back to the start, and no two of them land on
/// the same match — so a full cycle visits every match exactly once.
pub proof fn lemma_search_cycle(i: int, n: int)
    requires
        0 < n,
        0 <= i < n,
    ensures
        iterate_next(i, n as nat, n) == i,
        forall|k1: nat, k2: nat|
            1 <= k1 < k2 <= n ==> iterate_next(i, k1, n) != iterate_next(i, k2, n),
{
    lemma_iterate_next_value(i, n as nat, n);
    assert forall|k1: nat, k2: nat| 1 <= k1 < k2 <= n implies iterate_next(i, k1, n)
        != iterate_next(i, k2, n) by {
        lemma_iterate_next_value(i, k1, n);
        lemma_iterate_next_value(i, k2, n);
    }
}

/// Companion of [`lemma_search_cycle`]: every position of the match list is
/// reached by some rotation within one full cycle.
pub proof fn lemma_search_cycle_hits(i: int, n: int, j: int)
    requires
        0 < n,
        0 <= i < n,
        0 <= j < n,
    ensures
        exists|k: nat| 1 <= k <= n && #[trigger] iterate_next(i, k, n) == j,
{
    let k = if j > i {
        (j - i) as nat
    } else {
        (j - i + n) as nat
    };
    lemma_iterate_next_value(i, k, n);
    assert(iterate_next(i, k, n) == j);
}

/// The document store: the line-structured content together with the
/// session's flags, backing path and current search results.
#[derive(Debug)]
pub struct FileBuffer {
    contents: Vec<Vec<char>>,
    is_read_only: bool,
    path: String,
    search_result: Vec<Point>,
    search_result_index: usize,
}

impl FileBuffer {
    /// The lines of the document.
    pub closed spec fn contents_view(&self) -> Seq<Seq<char>> {
        doc_view(self.contents@)
    }

    /// The backing path.
    pub closed spec fn path_view(&self) -> Seq<char> {
        self.path@
    }

    /// The read-only flag.
    pub closed spec fn read_only_view(&self) -> bool {
        self.is_read_only
    }

    /// The committed search results, in scan order.
    pub closed spec fn results_view(&self) -> Seq<Point> {
        self.search_result@
    }

    /// The rotating index into the search results.
    pub closed spec fn result_index(&self) -> int {
        self.search_result_index as int
    }

    /// No line embeds a line-break, and the search index stays within the
    /// result list (at zero while the list is empty).
    pub open spec fn wf(&self) -> bool {
        &&& doc_wf(self.contents_view())
        &&& self.results_view().len() == 0 ==> self.result_index() == 0
        &&& self.results_view().len() > 0 ==> self.result_index() < self.results_view().len()
    }

    /// A store over the given lines, writable, with no search results yet.
    pub fn from_lines(contents: Vec<Vec<char>>, path: String) -> (f: FileBuffer)
        requires
            doc_wf(doc_view(contents@)),
        ensures
            f.wf(),
            f.contents_view() == doc_view(contents@),
            f.path_view() == path@,
            !f.read_only_view(),
            f.results_view() == Seq::<Point>::empty(),
            f.result_index() == 0,
    {
        let f = FileBuffer {
            contents,
            is_read_only: false,
            path,
            search_result: Vec::new(),
            search_result_index: 0,
        };
        proof {
            assert(f.results_view() =~= Seq::<Point>::empty());
        }
        f
    }

    /// Replace this store wholesale by another one.
    pub fn change_file(&mut self, new_buf: FileBuffer)
        ensures
            final(self).contents_view() == new_buf.contents_view(),
            final(self).read_only_view() == new_buf.read_only_view(),
            final(self).path_view() == new_buf.path_view(),
            final(self).results_view() == new_buf.results_view(),
            final(self).result_index() == new_buf.result_index(),
    {
        self.contents = new_buf.contents;
        self.is_read_only = new_buf.is_read_only;
        self.path = new_buf.path;
        self.search_result = new_buf.search_result;
        self.search_result_index = new_buf.search_result_index;
    }

    /// A copy of the document's lines.
    pub fn get_contents(&self) -> (r: Vec<Vec<char>>)
        ensures
            doc_view(r@) == self.contents_view(),
    {
        let mut r: Vec<Vec<char>> = Vec::new();
        let mut i: usize = 0;
        while i < self.contents.len()
            invariant
                i <= self.contents@.len(),
                r@.len() == i,
                forall|k: int| 0 <= k < i ==> r@[k]@ == self.contents@[k]@,
            decreases self.contents@.len() - i,
        {
            r.push(buffer::clone_chars(&self.contents[i]));
            i += 1;
        }
        proof {
            assert(doc_view(r@) =~= self.contents_view());
        }
        r
    }

    /// Swap in new document lines; everything else is kept.
    pub fn update_contents(&mut self, new_contents: Vec<Vec<char>>)
        requires
            doc_wf(doc_view(new_contents@)),
        ensures
            final(self).contents_view() == doc_view(new_contents@),
            final(self).read_only_view() == old(self).read_only_view(),
            final(self).path_view() == old(self).path_view(),
            final(self).results_view() == old(self).results_view(),
            final(self).result_index() == old(self).result_index(),
            old(self).wf() ==> final(self).wf(),
    {
        self.contents = new_contents;
    }

    /// The backing path.
    pub fn get_path(&self) -> (p: String)
        ensures
            p@ == self.path_view(),
    {
        self.path.clone()
    }

    /// The whole document flattened to the text that saving writes: each
    /// line followed by a line-break.
    pub fn to_text(&self) -> (t: Vec<char>)
        ensures
            t@ == join_lines_spec(self.contents_view()),
    {
        let mut t: Vec<char> = Vec::new();
        let mut i: usize = 0;
        proof {
            assert(t@ =~= join_lines_spec(self.contents_view().take(0)));
        }
        while i < self.contents.len()
            invariant
                i <= self.contents@.len(),
                t@ == join_lines_spec(self.contents_view().take(i as int)),
            decreases self.contents@.len() - i,
        {
            let line = &self.contents[i];
            let mut j: usize = 0;
            while j < line.len()
                invariant
                    j <= line@.len(),
                    line@ == self.contents@[i as int]@,
                    i < self.contents@.len(),
                    t@ == join_lines_spec(self.contents_view().take(i as int)) + line@.take(
                        j as int,
                    ),
                decreases line@.len() - j,
            {
                t.push(line[j]);
                proof {
                    assert(t@ =~= join_lines_spec(self.contents_view().take(i as int)) + line@.take(
                        j + 1,
                    ));
                }
                j += 1;
            }
            t.push('\n');
            proof {
                let upto = self.contents_view().take(i + 1);
                assert(upto.drop_last() =~= self.contents_view().take(i as int));
                assert(upto.last() == self.contents_view()[i as int]);
                assert(line@.take(line@.len() as int) =~= line@);
                assert(t@ =~= join_lines_spec(upto));
            }
            i += 1;
        }
        proof {
            assert(self.contents_view().take(i as int) =~= self.contents_view());
        }
        t
    }

    /// The read-only flag.
    pub fn get_read_only(&self) -> (flg: bool)
        ensures
            flg == self.read_only_view(),
    {
        self.is_read_only
    }

    /// Set the read-only flag.
    pub fn set_read_only(&mut self, dst: bool)
        ensures
            final(self).read_only_view() == dst,
            final(self).contents_view() == old(self).contents_view(),
            final(self).path_view() == old(self).path_view(),
            final(self).results_view() == old(self).results_view(),
            final(self).result_index() == old(self).result_index(),
            old(self).wf() ==> final(self).wf(),
    {
        self.is_read_only = dst;
    }

    /// The number of characters on the given line, zero when the row is out
    /// of range.
    pub fn get_col_length(&self, row: usize) -> (n: usize)
        ensures
            row < self.contents_view().len() ==> n == self.contents_view()[row as int].len(),
            row >= self.contents_view().len() ==> n == 0,
    {
        if row < self.contents.len() {
            self.contents[row].len()
        } else {
            0
        }
    }

    /// The number of lines.
    pub fn line_count(&self) -> (n: usize)
        ensures
            n == self.contents_view().len(),
    {
        self.contents.len()
    }

    /// The number of lines, truncated to the terminal-sized row type.
    pub fn get_row_length(&self) -> (n: u16)
        ensures
            n as int == self.contents_view().len() as int % 0x10000,
            self.contents_view().len() <= u16::MAX ==> n == self.contents_view().len(),
    {
        (self.contents.len() % 0x10000) as u16
    }

    /// Commit a fresh list of search results and reset the rotation.
    pub fn search_result_register(&mut self, result: Vec<Point>)
        ensures
            final(self).results_view() == result@,
            final(self).result_index() == 0,
            final(self).contents_view() == old(self).contents_view(),
            final(self).read_only_view() == old(self).read_only_view(),
            final(self).path_view() == old(self).path_view(),
            old(self).wf() ==> final(self).wf(),
    {
        self.search_result_index = 0;
        self.search_result = result;
    }

    /// Rotate to the next search result and hand it out; `None` while no
    /// results are committed.
    pub fn get_next_searchresult(&mut self) -> (r: Option<Point>)
        requires
            old(self).wf(),
        ensures
            final(self).wf(),
            final(self).contents_view() == old(self).contents_view(),
            final(self).read_only_view() == old(self).read_only_view(),
            final(self).path_view() == old(self).path_view(),
            final(self).results_view() == old(self).results_view(),
            old(self).results_view().len() == 0 ==> r == None::<Point> && final(self).result_index()
                == old(self).result_index(),
            old(self).results_view().len() > 0 ==> final(self).result_index() == next_index_spec(
                old(self).result_index(),
                old(self).results_view().len() as int,
            ) && r == Some(old(self).results_view()[final(self).result_index()]),
    {
        if self.search_result.len() > 0 {
            if self.search_result_index + 1 < self.search_result.len() {
                self.search_result_index += 1;
            } else {
                self.search_result_index = 0;
            }
            Some(self.search_result[self.search_result_index])
        } else {
            None
        }
    }
}

} // verus!
