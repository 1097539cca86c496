//! The viewport: on-screen cursor, scroll offset and the movement rules.
//!
//! The cursor is kept as a window-relative point plus the index of the first
//! visible document row; their sum is the cursor's place in the file.
//! Vertical movement scrolls by one line at the window edges; horizontal
//! movement clamps to the current line and a remembered preferred column
//! restores the horizontal position when vertical movement passes shorter
//! lines.  All terminal drawing happens outside the library; each movement
//! reports whether the caller has to repaint for a scroll.

use vstd::prelude::*;

use crate::coordinate::Point;
use crate::file::FileBuffer;

verus! {

/// A cursor movement, as the router dispatches it.
#[derive(Clone, Copy, Debug, PartialEq, Eq, Structural)]
pub enum MoveDirection {
    Up,
    Down,
    Left,
    Right,
    Head,
    Tail,
    NewLine,
}

/// How a movement changed the scroll offset: not at all, one row down
/// (toward later rows) or one row up.
#[derive(Clone, Copy, Debug, PartialEq, Eq, Structural)]
pub enum ScrollAction {
    Stay,
    OffsetDown,
    OffsetUp,
}

/// Width budget of one character cell on screen.
pub open spec fn disp_width(c: char) -> int {
    if c == '\t' {
        8
    } else if (c as u32) < 0x7f {
        1
    } else {
        2
    }
}

/// Display width of the first `n` characters of a line.
pub open spec fn disp_len(content: Seq<char>, n: int) -> int
    decreases n,
{
    if n <= 0 {
        0
    } else {
        disp_len(content, n - 1) + disp_width(content[n - 1])
    }
}

/// The number of characters on the given document row, zero out of range.
pub open spec fn col_len_at(doc: Seq<Seq<char>>, row: int) -> int {
    if 0 <= row < doc.len() {
        doc[row].len() as int
    } else {
        0
    }
}

/// A column clamped to the length of the given document row.
pub open spec fn clamp_col(column: usize, doc: Seq<Seq<char>>, row: int) -> usize {
    if column <= col_len_at(doc, row) {
        column
    } else {
        col_len_at(doc, row) as usize
    }
}

/// The viewport state.
pub struct Viewport {
    point: Point,
    point_in_file: Point,
    wsize: Point,
    pos_tmp: Point,
}

/// Where one cursor movement puts the viewport: the new window-relative
/// cursor, scroll offset and sticky position, and whether it scrolled.
///
/// Moving down past the lower window margin advances the offset by one
/// instead of the cursor; moving up at the top row pulls the offset back.
/// Vertical movement re-clamps the column to the new line, aiming at the
/// sticky (preferred) column; horizontal movement clamps to the current line
/// and resets the sticky column.  `Head` and `Tail` jump within the line;
/// `NewLine` leaves the viewport alone (the frontend repositions explicitly
/// after a line break).
pub open spec fn move_target(pre: Viewport, direction: MoveDirection, doc: Seq<Seq<char>>) -> (
    Point,
    Point,
    Point,
    ScrollAction,
) {
    let cur = pre.cursor();
    let off = pre.offset();
    let pref = pre.preferred();
    let w = pre.window();
    let file_row = cur.row + off.row;
    match direction {
        MoveDirection::Down => {
            let moved = doc.len() > file_row + 1;
            let scrolled = moved && !(w.row > cur.row + 3);
            let row2 = if moved {
                file_row + 1
            } else {
                file_row
            };
            let cur_row = if moved && !scrolled {
                (cur.row + 1) as usize
            } else {
                cur.row
            };
            let off_row = if scrolled {
                (off.row + 1) as usize
            } else {
                off.row
            };
            (
                Point { column: clamp_col(pref.column, doc, row2), row: cur_row },
                Point { column: off.column, row: off_row },
                Point { column: pref.column, row: row2 as usize },
                if scrolled {
                    ScrollAction::OffsetDown
                } else {
                    ScrollAction::Stay
                },
            )
        },
        MoveDirection::Up => {
            let scrolled = cur.row == 0 && off.row > 0;
            let cur_row = if cur.row > 0 {
                (cur.row - 1) as usize
            } else {
                cur.row
            };
            let off_row = if scrolled {
                (off.row - 1) as usize
            } else {
                off.row
            };
            let row2 = cur_row + off_row;
            (
                Point { column: clamp_col(pref.column, doc, row2), row: cur_row },
                Point { column: off.column, row: off_row },
                Point { column: pref.column, row: row2 as usize },
                if scrolled {
                    ScrollAction::OffsetUp
                } else {
                    ScrollAction::Stay
                },
            )
        },
        MoveDirection::Left => {
            let moved = cur.column > 0;
            let col2 = if moved {
                (cur.column - 1) as usize
            } else {
                cur.column
            };
            (
                Point { column: col2, row: cur.row },
                off,
                Point {
                    column: if moved {
                        col2
                    } else {
                        pref.column
                    },
                    row: pref.row,
                },
                ScrollAction::Stay,
            )
        },
        MoveDirection::Right => {
            let moved = cur.column < col_len_at(doc, file_row);
            let col2 = if moved {
                (cur.column + 1) as usize
            } else {
                cur.column
            };
            (
                Point { column: col2, row: cur.row },
                off,
                Point {
                    column: if moved {
                        col2
                    } else {
                        pref.column
                    },
                    row: pref.row,
                },
                ScrollAction::Stay,
            )
        },
        MoveDirection::Head => (Point { column: 0, row: cur.row }, off, pref, ScrollAction::Stay),
        MoveDirection::Tail => (
            Point { column: col_len_at(doc, file_row) as usize, row: cur.row },
            off,
            pref,
            ScrollAction::Stay,
        ),
        MoveDirection::NewLine => (cur, off, pref, ScrollAction::Stay),
    }
}

/// Where a jump puts the viewport: a target in the top half of the window
/// pins the offset to zero and takes the cursor row modulo the window
/// height; any other target is centered; the column is clamped to the
/// target line.
pub open spec fn jump_target(pre: Viewport, doc: Seq<Seq<char>>, point: Point) -> (Point, Point) {
    let w = pre.window();
    let off_row = if point.row <= w.row / 2 {
        0
    } else {
        (point.row - w.row / 2) as usize
    };
    let cur_row = if point.row <= w.row / 2 {
        (point.row % w.row) as usize
    } else {
        (w.row / 2) as usize
    };
    (
        Point { column: clamp_col(point.column, doc, point.row as int), row: cur_row },
        Point { column: 0, row: off_row },
    )
}

impl Viewport {
    /// The cursor, relative to the visible window.
    pub closed spec fn cursor(&self) -> Point {
        self.point
    }

    /// The scroll offset: the first visible document row (the column part is
    /// unused and stays zero).
    pub closed spec fn offset(&self) -> Point {
        self.point_in_file
    }

    /// The window size, in character cells.
    pub closed spec fn window(&self) -> Point {
        self.wsize
    }

    /// The remembered (sticky) position that vertical movement tries to
    /// return to.
    pub closed spec fn preferred(&self) -> Point {
        self.pos_tmp
    }

    /// The window has sane terminal dimensions, the offset column is unused,
    /// and the cursor stays within addressable range.
    pub open spec fn wf(&self) -> bool {
        &&& self.offset().column == 0
        &&& 1 <= self.window().row <= 65535
        &&& self.window().column <= 65535
        &&& self.cursor().row <= 65535
        &&& self.cursor().row + self.offset().row < usize::MAX
    }

    pub fn new(size: Point) -> (v: Viewport)
        requires
            1 <= size.row <= 65535,
            size.column <= 65535,
        ensures
            v.wf(),
            v.cursor() == (Point { column: 0, row: 0 }),
            v.offset() == (Point { column: 0, row: 0 }),
            v.preferred() == (Point { column: 0, row: 0 }),
            v.window() == size,
    {
        Viewport {
            point: Point { column: 0, row: 0 },
            point_in_file: Point { column: 0, row: 0 },
            wsize: size,
            pos_tmp: Point { column: 0, row: 0 },
        }
    }

    /// Adopt a new terminal size.
    pub fn update_wsize(&mut self, size: Point)
        requires
            old(self).wf(),
            1 <= size.row <= 65535,
            size.column <= 65535,
        ensures
            final(self).wf(),
            final(self).window() == size,
            final(self).cursor() == old(self).cursor(),
            final(self).offset() == old(self).offset(),
            final(self).preferred() == old(self).preferred(),
    {
        self.wsize = size;
    }

    /// The cursor's place in the document.
    pub fn get_cursor_coordinate_in_file(&self) -> (p: Point)
        requires
            self.wf(),
        ensures
            p.column == self.cursor().column,
            p.row == self.cursor().row + self.offset().row,
    {
        Point {
            column: self.point.column + self.point_in_file.column,
            row: self.point.row + self.point_in_file.row,
        }
    }

    /// The cursor's place on the screen.
    pub fn get_cursor_coordinate(&self) -> (p: Point)
        ensures
            p == self.cursor(),
    {
        Point { column: self.point.column, row: self.point.row }
    }

    /// Display width of the first `column` characters of a line: tabs count
    /// eight cells, other ASCII one, anything else two.
    pub fn calc_char_disp_length(&self, content: &Vec<char>, column: u16) -> (n: usize)
        requires
            column as int <= content@.len(),
        ensures
            n as int == disp_len(content@, column as int),
    {
        let mut ret: usize = 0;
        let mut i: usize = 0;
        while i < column as usize
            invariant
                i <= column as int,
                column as int <= content@.len(),
                ret as int == disp_len(content@, i as int),
                ret <= 8 * i,
            decreases column as int - i,
        {
            let c = content[i];
            ret += if c == '\t' {
                8
            } else if (c as u32) < 0x7f {
                1
            } else {
                2
            };
            i += 1;
        }
        ret
    }

    /// Jump the viewport to a document position: targets in the top half of
    /// the window pin the offset to zero, any other target is centered; the
    /// column is clamped to the target line's length.
    pub fn move_to_point(&mut self, buf: &FileBuffer, point: Point)
        requires
            old(self).wf(),
            point.row < usize::MAX,
        ensures
            final(self).wf(),
            final(self).window() == old(self).window(),
            final(self).preferred() == old(self).preferred(),
            (final(self).cursor(), final(self).offset()) == jump_target(
                *old(self),
                buf.contents_view(),
                point,
            ),
    {
        let half = self.wsize.row / 2;
        if point.row <= half {
            self.point_in_file.row = 0;
            self.point.row = point.row % self.wsize.row;
        } else {
            self.point_in_file.row = point.row - half;
            self.point.row = half;
        }
        let limit = buf.get_col_length(point.row);
        self.point.column = if point.column <= limit {
            point.column
        } else {
            limit
        };
    }

    /// Move the cursor one step, scrolling at the window edges and keeping
    /// the sticky column across vertical movement, as [`move_target`]
    /// describes.
    pub fn move_cursor_nextpos(&mut self, direction: MoveDirection, buf: &FileBuffer) -> (act:
        ScrollAction)
        requires
            old(self).wf(),
        ensures
            final(self).wf(),
            final(self).window() == old(self).window(),
            (final(self).cursor(), final(self).offset(), final(self).preferred(), act)
                == move_target(*old(self), direction, buf.contents_view()),
    {
        match direction {
            MoveDirection::Down => {
                let rows = buf.line_count();
                let mut act = ScrollAction::Stay;
                if rows <= self.point.row + self.point_in_file.row + 1 {
                } else if self.wsize.row > self.point.row + 3 {
                    self.point.row = self.point.row + 1;
                } else {
                    self.point_in_file.row += 1;
                    act = ScrollAction::OffsetDown;
                }
                self.pos_tmp.row = self.point_in_file.row + self.point.row;
                let col_length = buf.get_col_length(self.point.row + self.point_in_file.row);
                if self.pos_tmp.column > col_length {
                    self.point.column = col_length;
                } else {
                    self.point.column = self.pos_tmp.column;
                }
                act
            },
            MoveDirection::Up => {
                let mut act = ScrollAction::Stay;
                if self.point.row > 0 {
                    self.point.row = self.point.row - 1;
                } else {
                    if self.point_in_file.row > 0 {
                        self.point_in_file.row -= 1;
                        act = ScrollAction::OffsetUp;
                    }
                }
                self.pos_tmp.row = self.point_in_file.row + self.point.row;
                let col_length = buf.get_col_length(self.point.row + self.point_in_file.row);
                if self.pos_tmp.column > col_length {
                    self.point.column = col_length;
                } else {
                    self.point.column = self.pos_tmp.column;
                }
                act
            },
            MoveDirection::Left => {
                if self.point.column > 0 {
                    self.point.column = self.point.column - 1;
                    self.pos_tmp.column = self.point.column;
                }
                ScrollAction::Stay
            },
            MoveDirection::Right => {
                let col_length = buf.get_col_length(self.point.row + self.point_in_file.row);
                if self.point.column < col_length {
                    self.point.column += 1;
                    self.pos_tmp.column = self.point.column;
                }
                ScrollAction::Stay
            },
            MoveDirection::Head => {
                self.point.column = 0;
                ScrollAction::Stay
            },
            MoveDirection::Tail => {
                self.point.column = buf.get_col_length(self.point.row + self.point_in_file.row);
                ScrollAction::Stay
            },
            MoveDirection::NewLine => ScrollAction::Stay,
        }
    }

    /// The rows of the document the window shows: from the scroll offset to
    /// at most two rows short of the window height.
    pub fn visible_range(&self, total_rows: usize) -> (range: (usize, usize))
        requires
            self.wf(),
            self.window().row >= 2,
            self.offset().row + self.window().row <= usize::MAX,
        ensures
            range.0 == self.offset().row,
            range.0 <= range.1,
            range.1 as int == if self.offset().row + self.window().row - 2 <= total_rows {
                self.offset().row + self.window().row - 2
            } else {
                if self.offset().row <= total_rows {
                    total_rows as int
                } else {
                    self.offset().row as int
                }
            },
    {
        let start = self.point_in_file.row;
        let last = self.point_in_file.row + (self.wsize.row - 2);
        let end = if last <= total_rows {
            last
        } else {
            if start <= total_rows {
                total_rows
            } else {
                start
            }
        };
        (start, end)
    }
}

/// The prefix of a line that fits the given width, in characters.
pub fn clip_line(line: &Vec<char>, width: usize) -> (r: Vec<char>)
    ensures
        r@ == if width <= line@.len() {
            line@.take(width as int)
        } else {
            line@
        },
{
    let n = if width <= line.len() {
        width
    } else {
        line.len()
    };
    let mut r: Vec<char> = Vec::new();
    let mut i: usize = 0;
    proof {
        assert(r@ =~= line@.take(n as int).take(0));
    }
    while i < n
        invariant
            i <= n,
            n <= line@.len(),
            r@ == line@.take(n as int).take(i as int),
        decreases n - i,
    {
        r.push(line[i]);
        proof {
            assert(line@.take(n as int).take(i + 1) =~= line@.take(n as int).take(
                i as int,
            ).push(line@[i as int]));
        }
        i += 1;
    }
    proof {
        assert(line@.take(n as int).take(n as int) =~= line@.take(n as int));
        if width > line@.len() {
            assert(line@.take(n as int) =~= line@);
        }
    }
    r
}

} // verus!
