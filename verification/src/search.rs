//! In-document search: a naive forward scan for a pattern within single
//! lines, and the Search-mode keystroke handler that composes the pattern.

use vstd::prelude::*;

use crate::buffer::doc_view;
use crate::coordinate::Point;
use crate::file::FileBuffer;
use crate::key::KeyCode;
use crate::mode::MODE;

verus! {

/// The pattern occurs in the document starting at `p`, entirely within the
/// line `p.row` (matches never span line boundaries; the empty pattern
/// matches nowhere).
pub open spec fn is_match_at(doc: Seq<Seq<char>>, ptn: Seq<char>, p: Point) -> bool {
    &&& ptn.len() > 0
    &&& p.row < doc.len()
    &&& p.column + ptn.len() <= doc[p.row as int].len()
    &&& doc[p.row as int].subrange(p.column as int, p.column + ptn.len()) == ptn
}

/// Scan order on coordinates: by row, then by column.
pub open spec fn point_lt(a: Point, b: Point) -> bool {
    a.row < b.row || (a.row == b.row && a.column < b.column)
}

/// The result list is exactly the set of match positions, in scan order:
/// every listed coordinate is a match, the list is strictly increasing, and
/// no match position is missing.
pub open spec fn search_results_ok(doc: Seq<Seq<char>>, ptn: Seq<char>, results: Seq<Point>) -> bool {
    &&& forall|k: int| 0 <= k < results.len() ==> is_match_at(doc, ptn, #[trigger] results[k])
    &&& forall|k1: int, k2: int|
        0 <= k1 < k2 < results.len() ==> point_lt(results[k1], results[k2])
    &&& forall|p: Point| is_match_at(doc, ptn, p) ==> results.contains(p)
}

fn match_at(line: &Vec<char>, ptn: &Vec<char>, col: usize) -> (b: bool)
    requires
        col + ptn@.len() <= line@.len(),
        line@.len() <= usize::MAX,
    ensures
        b == (line@.subrange(col as int, col + ptn@.len()) == ptn@),
{
    let mut j: usize = 0;
    while j < ptn.len()
        invariant
            j <= ptn@.len(),
            col + ptn@.len() <= line@.len(),
            line@.len() <= usize::MAX,
            forall|m: int| 0 <= m < j ==> line@[col + m] == ptn@[m],
        decreases ptn@.len() - j,
    {
        if line[col + j] != ptn[j] {
            proof {
                assert(line@.subrange(col as int, col + ptn@.len())[j as int] == line@[col + j]);
            }
            return false;
        }
        j += 1;
    }
    proof {
        assert(line@.subrange(col as int, col + ptn@.len()) =~= ptn@);
    }
    true
}

/// Every starting coordinate at which the pattern occurs contiguously within
/// a single line, in scan order.
pub fn search_string(buf: &Vec<Vec<char>>, ptn: &Vec<char>) -> (r: Vec<Point>)
    ensures
        search_results_ok(doc_view(buf@), ptn@, r@),
{
    let ghost doc = doc_view(buf@);
    let mut r: Vec<Point> = Vec::new();
    if ptn.len() == 0 {
        return r;
    }
    let mut row: usize = 0;
    while row < buf.len()
        invariant
            row <= buf@.len(),
            doc == doc_view(buf@),
            ptn@.len() > 0,
            forall|k: int| 0 <= k < r@.len() ==> is_match_at(doc, ptn@, #[trigger] r@[k]),
            forall|k1: int, k2: int| 0 <= k1 < k2 < r@.len() ==> point_lt(r@[k1], r@[k2]),
            forall|k: int| 0 <= k < r@.len() ==> (#[trigger] r@[k]).row < row,
            forall|p: Point| is_match_at(doc, ptn@, p) && p.row < row ==> r@.contains(p),
        decreases buf@.len() - row,
    {
        let line = &buf[row];
        proof {
            assert(doc[row as int] == line@);
        }
        if ptn.len() <= line.len() {
            let last_start = line.len() - ptn.len();
            let mut col: usize = 0;
            while col <= last_start
                invariant
                    col <= last_start + 1,
                    last_start == line@.len() - ptn@.len(),
                    line@.len() <= usize::MAX,
                    row < buf@.len(),
                    doc == doc_view(buf@),
                    doc[row as int] == line@,
                    ptn@.len() > 0,
                    ptn@.len() <= line@.len(),
                    forall|k: int| 0 <= k < r@.len() ==> is_match_at(doc, ptn@, #[trigger] r@[k]),
                    forall|k1: int, k2: int| 0 <= k1 < k2 < r@.len() ==> point_lt(r@[k1], r@[k2]),
                    forall|k: int|
                        0 <= k < r@.len() ==> point_lt(
                            #[trigger] r@[k],
                            Point { column: col, row },
                        ),
                    forall|p: Point|
                        is_match_at(doc, ptn@, p) && point_lt(p, Point { column: col, row })
                            ==> r@.contains(p),
                decreases last_start + 1 - col,
            {
                let ghost r0 = r@;
                let hit = match_at(line, ptn, col);
                let q = Point { column: col, row };
                if hit {
                    r.push(q);
                    proof {
                        assert(is_match_at(doc, ptn@, q));
                        assert forall|p: Point| r0.contains(p) implies r@.contains(p) by {
                            let k = choose|k: int| 0 <= k < r0.len() && r0[k] == p;
                            assert(r@[k] == p);
                        }
                        assert(r@.contains(q)) by {
                            assert(r@[r@.len() - 1] == q);
                        }
                    }
                } else {
                    proof {
                        assert(!is_match_at(doc, ptn@, q));
                    }
                }
                proof {
                    assert forall|p: Point|
                        is_match_at(doc, ptn@, p) && point_lt(
                            p,
                            Point { column: (col + 1) as usize, row },
                        ) implies r@.contains(p) by {
                        if point_lt(p, q) {
                            assert(r0.contains(p));
                            let k = choose|k: int| 0 <= k < r0.len() && r0[k] == p;
                            assert(r@[k] == p);
                        } else {
                            assert(p == q);
                            assert(hit);
                            assert(r@.contains(q));
                        }
                    }
                }
                col += 1;
            }
            proof {
                assert forall|p: Point|
                    is_match_at(doc, ptn@, p) && p.row < row + 1 implies r@.contains(p) by {
                    if p.row == row {
                        assert(p.column + ptn@.len() <= line@.len());
                        assert(point_lt(p, Point { column: col, row }));
                    }
                }
            }
        } else {
            proof {
                assert forall|p: Point|
                    is_match_at(doc, ptn@, p) && p.row < row + 1 implies r@.contains(p) by {
                    if p.row == row {
                        assert(p.column + ptn@.len() <= line@.len());
                    }
                }
            }
        }
        row += 1;
    }
    proof {
        assert forall|p: Point| is_match_at(doc, ptn@, p) implies r@.contains(p) by {
            assert(p.row < doc.len());
        }
    }
    r
}

/// Search-mode state: the pattern being composed.
pub struct Search {
    ptn: Vec<char>,
}

impl View for Search {
    type V = Seq<char>;

    closed spec fn view(&self) -> Seq<char> {
        self.ptn@
    }
}

impl Search {
    pub fn new() -> (s: Search)
        ensures
            s@ == Seq::<char>::empty(),
    {
        let s = Search { ptn: Vec::new() };
        proof {
            assert(s@ =~= Seq::<char>::empty());
        }
        s
    }

    /// One Search-mode keystroke: a character extends the pattern; Enter
    /// commits the scan results to the buffer, clears the pattern and
    /// returns to Normal mode; any other key returns to Normal mode with
    /// everything unchanged.
    pub fn proc_search(&mut self, code: KeyCode, buf: &mut FileBuffer) -> (m: MODE)
        requires
            old(buf).wf(),
        ensures
            final(buf).wf(),
            final(buf).contents_view() == old(buf).contents_view(),
            final(buf).read_only_view() == old(buf).read_only_view(),
            final(buf).path_view() == old(buf).path_view(),
            (code matches KeyCode::Char(_)) ==> {
                &&& final(self)@ == old(self)@.push(code->Char_0)
                &&& m == MODE::Search
                &&& final(buf).results_view() == old(buf).results_view()
                &&& final(buf).result_index() == old(buf).result_index()
            },
            code == KeyCode::Enter ==> {
                &&& final(self)@ == Seq::<char>::empty()
                &&& m == MODE::Normal
                &&& search_results_ok(
                    old(buf).contents_view(),
                    old(self)@,
                    final(buf).results_view(),
                )
                &&& final(buf).result_index() == 0
            },
            !(code matches KeyCode::Char(_)) && code != KeyCode::Enter ==> {
                &&& final(self)@ == old(self)@
                &&& m == MODE::Normal
                &&& final(buf).results_view() == old(buf).results_view()
                &&& final(buf).result_index() == old(buf).result_index()
            },
    {
        match code {
            KeyCode::Char(c) => {
                self.ptn.push(c);
                MODE::Search
            },
            KeyCode::Enter => {
                let contents = buf.get_contents();
                let result = search_string(&contents, &self.ptn);
                buf.search_result_register(result);
                self.ptn.clear();
                MODE::Normal
            },
            _ => MODE::Normal,
        }
    }
}

} // verus!
