//! The Normal-mode keystroke handler: movement, mode changes, character
//! deletion, undo/redo, search navigation and yank/paste.

use vstd::prelude::*;

use crate::buffer;
use crate::buffer::{
    delete_spec, doc_view, insert_spec, lemma_delete_preserves_wf, lemma_insert_preserves_wf,
    line_wf, run_wf,
};
use crate::coordinate::Point;
use crate::edit::{lemma_undo_step_preserves_wf, undo_step, Undo, UndoDirection, Yank};
use crate::file::{next_index_spec, FileBuffer};
use crate::history::{hist_add_spec, EditOperation, RecordModel};
use crate::key::KeyCode;
use crate::mode::MODE;
use crate::viewport::{jump_target, move_target, MoveDirection, Viewport};

verus! {

/// The viewport made exactly one movement step.
pub open spec fn moved3(pre: Viewport, post: Viewport, dir: MoveDirection, doc: Seq<Seq<char>>) -> bool {
    let t = move_target(pre, dir, doc);
    &&& post.cursor() == t.0
    &&& post.offset() == t.1
    &&& post.preferred() == t.2
    &&& post.window() == pre.window()
}

/// The viewport jumped to the given document position.
pub open spec fn jumped(pre: Viewport, post: Viewport, doc: Seq<Seq<char>>, p: Point) -> bool {
    &&& (post.cursor(), post.offset()) == jump_target(pre, doc, p)
    &&& post.preferred() == pre.preferred()
    &&& post.window() == pre.window()
}

#[derive(Debug)]
pub struct Normal {}

impl Normal {
    /// Interpret one Normal-mode key, as the clause for each key below
    /// describes, and report the mode the session is in afterwards.
    pub fn proc_normal(
        code: KeyCode,
        display: &mut Viewport,
        buf: &mut FileBuffer,
        undo: &mut Undo,
        yank: &mut Yank,
    ) -> (m: MODE)
        requires
            old(display).wf(),
            old(buf).wf(),
            old(undo).wf(),
            line_wf(old(yank)@),
        ensures
            final(display).wf(),
            final(buf).wf(),
            final(undo).wf(),
            line_wf(final(yank)@),
            final(buf).path_view() == old(buf).path_view(),
            final(buf).read_only_view() == old(buf).read_only_view(),
            ({
                let doc0 = old(buf).contents_view();
                let cur0 = Point {
                    column: old(display).cursor().column,
                    row: (old(display).cursor().row + old(display).offset().row) as usize,
                };
                let undo0 = old(undo).undo_stack();
                let redo0 = old(undo).redo_stack();
                let display_same = *final(display) == *old(display);
                let buf_same = *final(buf) == *old(buf);
                let undo_same = *final(undo) == *old(undo);
                let yank_same = *final(yank) == *old(yank);
                let all_same = display_same && buf_same && undo_same && yank_same;
                match code {
                    KeyCode::Char(c) => {
                        if c == ':' {
                            m == MODE::Command && all_same
                        } else if c == 'i' {
                            m == MODE::Insert && all_same
                        } else if c == 'I' {
                            m == MODE::Insert && moved3(
                                *old(display),
                                *final(display),
                                MoveDirection::Head,
                                doc0,
                            ) && buf_same && undo_same && yank_same
                        } else if c == 'a' {
                            m == MODE::Insert && moved3(
                                *old(display),
                                *final(display),
                                MoveDirection::Right,
                                doc0,
                            ) && buf_same && undo_same && yank_same
                        } else if c == 'A' {
                            m == MODE::Insert && moved3(
                                *old(display),
                                *final(display),
                                MoveDirection::Tail,
                                doc0,
                            ) && buf_same && undo_same && yank_same
                        } else if c == 'v' {
                            m == MODE::Visual && all_same
                        } else if c == 'j' {
                            m == MODE::Normal && moved3(
                                *old(display),
                                *final(display),
                                MoveDirection::Down,
                                doc0,
                            ) && buf_same && undo_same && yank_same
                        } else if c == 'k' {
                            m == MODE::Normal && moved3(
                                *old(display),
                                *final(display),
                                MoveDirection::Up,
                                doc0,
                            ) && buf_same && undo_same && yank_same
                        } else if c == 'h' {
                            m == MODE::Normal && moved3(
                                *old(display),
                                *final(display),
                                MoveDirection::Left,
                                doc0,
                            ) && buf_same && undo_same && yank_same
                        } else if c == 'l' {
                            m == MODE::Normal && moved3(
                                *old(display),
                                *final(display),
                                MoveDirection::Right,
                                doc0,
                            ) && buf_same && undo_same && yank_same
                        } else if c == 'x' {
                            let step = delete_spec(doc0, cur0, 1);
                            &&& m == MODE::Normal
                            &&& final(buf).contents_view() == step.0
                            &&& final(buf).results_view() == old(buf).results_view()
                            &&& final(buf).result_index() == old(buf).result_index()
                            &&& final(undo).undo_stack() == (if step.1.len() > 0 {
                                hist_add_spec(
                                    undo0,
                                    RecordModel {
                                        ope: EditOperation::DELETE,
                                        target: step.1,
                                        position: cur0,
                                    },
                                )
                            } else {
                                undo0
                            })
                            &&& final(undo).redo_stack() == redo0
                            &&& display_same
                            &&& yank_same
                        } else if c == 'u' {
                            let step = undo_step(doc0, undo0, redo0);
                            &&& m == MODE::Normal
                            &&& final(buf).contents_view() == step.0
                            &&& final(buf).results_view() == old(buf).results_view()
                            &&& final(buf).result_index() == old(buf).result_index()
                            &&& final(undo).undo_stack() == step.1
                            &&& final(undo).redo_stack() == step.2
                            &&& step.3.row < usize::MAX ==> jumped(
                                *old(display),
                                *final(display),
                                step.0,
                                step.3,
                            )
                            &&& step.3.row == usize::MAX ==> display_same
                            &&& yank_same
                        } else if c == 'r' {
                            let step = undo_step(doc0, redo0, undo0);
                            &&& m == MODE::Normal
                            &&& final(buf).contents_view() == step.0
                            &&& final(buf).results_view() == old(buf).results_view()
                            &&& final(buf).result_index() == old(buf).result_index()
                            &&& final(undo).redo_stack() == step.1
                            &&& final(undo).undo_stack() == step.2
                            &&& step.3.row < usize::MAX ==> jumped(
                                *old(display),
                                *final(display),
                                step.0,
                                step.3,
                            )
                            &&& step.3.row == usize::MAX ==> display_same
                            &&& yank_same
                        } else if c == '/' {
                            m == MODE::Search && all_same
                        } else if c == 'n' {
                            &&& m == MODE::Normal
                            &&& buf_unchanged_but_index(*old(buf), *final(buf))
                            &&& undo_same
                            &&& yank_same
                            &&& old(buf).results_view().len() == 0 ==> display_same
                                && final(buf).result_index() == old(buf).result_index()
                            &&& old(buf).results_view().len() > 0 ==> {
                                let results = old(buf).results_view();
                                let idx = next_index_spec(
                                    old(buf).result_index(),
                                    results.len() as int,
                                );
                                let p = results[idx];
                                &&& final(buf).result_index() == idx
                                &&& p.row < usize::MAX ==> jumped(
                                    *old(display),
                                    *final(display),
                                    doc0,
                                    p,
                                )
                                &&& p.row == usize::MAX ==> display_same
                            }
                        } else if c == 'y' {
                            &&& m == MODE::Normal
                            &&& display_same
                            &&& buf_same
                            &&& undo_same
                            &&& cur0.row < doc0.len() ==> final(yank)@ == doc0[cur0.row as int]
                            &&& cur0.row >= doc0.len() ==> final(yank)@ == old(yank)@
                        } else if c == 'p' {
                            let run = old(yank)@ + seq!['\n'];
                            let anchor = Point { column: 0, row: cur0.row };
                            let pastable = cur0.row < doc0.len() ==> doc0[cur0.row as int].len()
                                + old(yank)@.len() + 1 <= usize::MAX;
                            &&& m == MODE::Normal
                            &&& yank_same
                            &&& if pastable {
                                let doc1 = insert_spec(doc0, anchor, run);
                                &&& final(buf).contents_view() == doc1
                                &&& final(buf).results_view() == old(buf).results_view()
                                &&& final(buf).result_index() == old(buf).result_index()
                                &&& final(undo).undo_stack() == hist_add_spec(
                                    undo0,
                                    RecordModel {
                                        ope: EditOperation::ADD,
                                        target: run,
                                        position: anchor,
                                    },
                                )
                                &&& final(undo).redo_stack() == redo0
                                &&& moved3(
                                    *old(display),
                                    *final(display),
                                    MoveDirection::Down,
                                    doc1,
                                )
                            } else {
                                display_same && buf_same && undo_same
                            }
                        } else {
                            m == MODE::Normal && all_same
                        }
                    },
                    _ => m == MODE::Normal && all_same,
                }
            }),
    {
        match code {
            KeyCode::Char(c) => match c {
                ':' => MODE::Command,
                'i' => MODE::Insert,
                'I' => {
                    let _ = display.move_cursor_nextpos(MoveDirection::Head, buf);
                    MODE::Insert
                },
                'a' => {
                    let _ = display.move_cursor_nextpos(MoveDirection::Right, buf);
                    MODE::Insert
                },
                'A' => {
                    let _ = display.move_cursor_nextpos(MoveDirection::Tail, buf);
                    MODE::Insert
                },
                'v' => MODE::Visual,
                'j' => {
                    let _ = display.move_cursor_nextpos(MoveDirection::Down, buf);
                    MODE::Normal
                },
                'k' => {
                    let _ = display.move_cursor_nextpos(MoveDirection::Up, buf);
                    MODE::Normal
                },
                'h' => {
                    let _ = display.move_cursor_nextpos(MoveDirection::Left, buf);
                    MODE::Normal
                },
                'l' => {
                    let _ = display.move_cursor_nextpos(MoveDirection::Right, buf);
                    MODE::Normal
                },
                'x' => {
                    let cpos = display.get_cursor_coordinate_in_file();
                    let mut contents = buf.get_contents();
                    let ghost doc0 = doc_view(contents@);
                    let delchar = buffer::delete(&mut contents, cpos, 1);
                    proof {
                        lemma_delete_preserves_wf(doc0, cpos, 1);
                        reveal_with_fuel(delete_spec, 2);
                        assert(delchar@.len() <= 1);
                        assert(run_wf(delchar@));
                    }
                    buf.update_contents(contents);
                    undo.add_do_history(EditOperation::DELETE, delchar, cpos);
                    MODE::Normal
                },
                'u' => {
                    let mut contents = buf.get_contents();
                    let pos = undo.undo(&mut contents, UndoDirection::Undo);
                    proof {
                        lemma_undo_step_preserves_wf(
                            old(buf).contents_view(),
                            old(undo).undo_stack(),
                            old(undo).redo_stack(),
                        );
                    }
                    buf.update_contents(contents);
                    if pos.row < usize::MAX {
                        display.move_to_point(buf, pos);
                    }
                    MODE::Normal
                },
                'r' => {
                    let mut contents = buf.get_contents();
                    let pos = undo.undo(&mut contents, UndoDirection::Redo);
                    proof {
                        lemma_undo_step_preserves_wf(
                            old(buf).contents_view(),
                            old(undo).redo_stack(),
                            old(undo).undo_stack(),
                        );
                    }
                    buf.update_contents(contents);
                    if pos.row < usize::MAX {
                        display.move_to_point(buf, pos);
                    }
                    MODE::Normal
                },
                '/' => MODE::Search,
                'n' => {
                    match buf.get_next_searchresult() {
                        Some(point) => {
                            if point.row < usize::MAX {
                                display.move_to_point(buf, point);
                            }
                        },
                        None => (),
                    };
                    MODE::Normal
                },
                'y' => {
                    let cpos = display.get_cursor_coordinate_in_file();
                    let contents = buf.get_contents();
                    let ghost cv = contents@;
                    proof {
                        if cpos.row < cv.len() {
                            assert(doc_view(cv)[cpos.row as int] == cv[cpos.row as int]@);
                        }
                    }
                    yank.yank(contents, cpos);
                    MODE::Normal
                },
                'p' => {
                    let cpos = display.get_cursor_coordinate_in_file();
                    let ylen = yank.yanked_len();
                    let pastable = if cpos.row < buf.line_count() {
                        let cl = buf.get_col_length(cpos.row);
                        ylen < usize::MAX && cl <= usize::MAX - 1 - ylen
                    } else {
                        true
                    };
                    if pastable {
                        let contents = buf.get_contents();
                        let ghost cv = contents@;
                        proof {
                            if cpos.row < cv.len() {
                                assert(doc_view(cv)[cpos.row as int] == cv[cpos.row as int]@);
                            }
                        }
                        let newc = yank.past(cpos.row, contents, undo);
                        proof {
                            let run = yank@ + seq!['\n'];
                            assert(run_wf(run)) by {
                                assert forall|i: int| 0 <= i < run.len() - 1 implies run[i]
                                    != '\n' by {
                                    assert(run[i] == yank@[i]);
                                }
                            }
                            lemma_insert_preserves_wf(
                                doc_view(cv),
                                Point { column: 0, row: cpos.row },
                                run,
                            );
                        }
                        buf.update_contents(newc);
                        let _ = display.move_cursor_nextpos(MoveDirection::Down, buf);
                    }
                    MODE::Normal
                },
                _ => MODE::Normal,
            },
            _ => MODE::Normal,
        }
    }
}

/// Everything of the document store except the search index is unchanged.
pub open spec fn buf_unchanged_but_index(pre: FileBuffer, post: FileBuffer) -> bool {
    &&& post.contents_view() == pre.contents_view()
    &&& post.results_view() == pre.results_view()
    &&& post.path_view() == pre.path_view()
    &&& post.read_only_view() == pre.read_only_view()
}

} // verus!
