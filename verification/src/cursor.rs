//! The cursor and its viewport adjustment. The cursor holds a (column,
//! row) pair; the row always stays on a buffer line, while the column is
//! clamped against the current line on every read through
//! `get_display`. Movement keeps the scroll offset in step so that the
//! cursor row stays inside the visible window.
//!
//! Column policy: a horizontal move clamps the stored column against
//! the line the cursor is on at that moment, while a purely vertical
//! move leaves the stored column untouched. A column that exceeds a
//! shorter line therefore survives as the desired column until the next
//! horizontal move, and only the displayed position is clamped.

use vstd::prelude::*;

use crate::buf::CodeBuffer;
use crate::cmd::CommandKind;
use crate::cmd::EditorCommand;
use crate::types::Vec2;

verus! {

/// The column after a horizontal move by `dx` on a line of length
/// `line_len`: a negative delta clamps at 0, a positive one at
/// `line_len`.
pub open spec fn spec_move_x(x: int, dx: int, line_len: int) -> int {
    if dx < 0 {
        if x < -dx {
            0
        } else {
            x + dx
        }
    } else if dx > 0 {
        if x + dx > line_len {
            line_len
        } else {
            x + dx
        }
    } else {
        x
    }
}

/// The row after a vertical move by `dy` in a buffer of `line_count`
/// lines: a negative delta clamps at 0, a positive one at the last row.
pub open spec fn spec_move_y(y: int, dy: int, line_count: int) -> int {
    if dy < 0 {
        if y < -dy {
            0
        } else {
            y + dy
        }
    } else {
        if y + dy > line_count - 1 {
            line_count - 1
        } else {
            y + dy
        }
    }
}

/// The scroll offset after the row moved to `new_y`: moving up scrolls
/// up just enough to reveal the row, moving down scrolls down just
/// enough to keep it on the last visible row.
pub open spec fn spec_scroll_y(off_y: int, new_y: int, dy: int, visible_rows: int) -> int {
    if dy < 0 {
        if new_y < off_y {
            new_y
        } else {
            off_y
        }
    } else {
        if new_y >= off_y + visible_rows {
            new_y - visible_rows + 1
        } else {
            off_y
        }
    }
}

/// A move never leaves the buffer: for any signed deltas, however far
/// past the buffer edges, the row stays in `[0, line_count - 1]` and
/// the clamped display column stays in `[0, line_len]`. Chained over a
/// sequence of moves, this keeps the cursor on the buffer forever.
pub proof fn lemma_move_stays_on_buffer(x: int, y: int, dx: int, dy: int, line_len: int, line_count: int)
    requires
        0 <= x,
        0 <= y < line_count,
        0 <= line_len,
    ensures
        0 <= spec_move_y(y, dy, line_count) < line_count,
        0 <= spec_move_x(x, dx, line_len),
        ({
            let nx = spec_move_x(x, dx, line_len);
            let cl = if nx > line_len {
                line_len
            } else {
                nx
            };
            0 <= cl <= line_len
        }),
{
}

/// The viewport invariant is kept by every move: when the scroll
/// offset starts no lower than the cursor row and the row is visible,
/// then after the row moves (up for a negative delta, down otherwise)
/// the adjusted offset satisfies `offset <= row < offset + visible_rows`
/// again. A move with a non-negative delta establishes the upper bound
/// outright, whatever held before; an upward move only preserves it,
/// since scrolling never moves the window down to chase a row that was
/// already below it.
pub proof fn lemma_viewport_invariant(off: int, y: int, new_y: int, dy: int, vr: int)
    requires
        vr >= 1,
        0 <= off <= y,
        y < off + vr,
        0 <= new_y,
        dy < 0 ==> new_y <= y,
        dy >= 0 ==> new_y >= y,
    ensures
        spec_scroll_y(off, new_y, dy, vr) <= new_y,
        new_y < spec_scroll_y(off, new_y, dy, vr) + vr,
{
}

/// The logical cursor. The stored column may exceed the current line
/// length; every read access clamps it down (the one-past-end insertion
/// point is a legal display column).
#[derive(Clone, Copy, Debug)]
pub struct EditorCursor {
    x: usize,
    y: usize,
}

impl Default for EditorCursor {
    fn default() -> (r: Self)
        ensures
            r.col() == 0,
            r.row() == 0,
    {
        EditorCursor { x: 0, y: 0 }
    }
}

impl EditorCursor {
    /// The stored (possibly unclamped) column.
    pub closed spec fn col(&self) -> int {
        self.x as int
    }

    /// The current row.
    pub closed spec fn row(&self) -> int {
        self.y as int
    }

    /// The cursor is on a line of the buffer.
    pub open spec fn on_buffer(&self, buf: &CodeBuffer) -> bool {
        self.row() < buf@.len()
    }

    /// Moves the cursor by the signed deltas, clamping at the buffer
    /// edges, and scrolls the viewport so that the row stays visible.
    /// The horizontal clamp is taken against the line the cursor is on
    /// before the vertical move.
    pub fn move_by(
        &mut self,
        buf: &CodeBuffer,
        offset: &mut Vec2<usize>,
        dx: isize,
        dy: isize,
        visible_rows: usize,
    )
        requires
            buf.wf(),
            old(self).on_buffer(buf),
            visible_rows >= 1,
            old(offset).y <= old(self).row(),
        ensures
            final(self).col() == spec_move_x(
                old(self).col(),
                dx as int,
                buf@[old(self).row()].len() as int,
            ),
            final(self).row() == spec_move_y(old(self).row(), dy as int, buf@.len() as int),
            final(offset).y == spec_scroll_y(
                old(offset).y as int,
                final(self).row(),
                dy as int,
                visible_rows as int,
            ),
            final(offset).x == old(offset).x,
            final(self).on_buffer(buf),
            final(offset).y <= final(self).row(),
            dy >= 0 ==> final(self).row() < final(offset).y + visible_rows,
            old(self).row() < old(offset).y + visible_rows ==> final(self).row() < final(offset).y
                + visible_rows,
    {
        let buf_len = buf.line_count();
        let line_len = buf.line_length(self.y);

        if dx < 0 {
            let mag: usize = if dx == isize::MIN {
                (isize::MAX as usize) + 1
            } else {
                (-dx) as usize
            };
            if self.x < mag {
                self.x = 0;
            } else {
                self.x = self.x - mag;
            }
        } else if dx > 0 {
            let step = dx as usize;
            if self.x >= line_len {
                self.x = line_len;
            } else if step > line_len - self.x {
                self.x = line_len;
            } else {
                self.x = self.x + step;
            }
        }

        if dy < 0 {
            let mag: usize = if dy == isize::MIN {
                (isize::MAX as usize) + 1
            } else {
                (-dy) as usize
            };
            if self.y < mag {
                self.y = 0;
            } else {
                self.y = self.y - mag;
            }
            if self.y < offset.y {
                offset.y = self.y;
            }
        } else {
            let step = dy as usize;
            let max_y = buf_len - 1;
            if self.y >= max_y {
                self.y = max_y;
            } else if step > max_y - self.y {
                self.y = max_y;
            } else {
                self.y = self.y + step;
            }
            if self.y - offset.y >= visible_rows {
                offset.y = self.y - visible_rows + 1;
            }
        }
    }

    /// Moves the column to `x`, clamped at the current line length.
    pub fn move_x_to(&mut self, buf: &CodeBuffer, x: usize)
        requires
            old(self).on_buffer(buf),
        ensures
            final(self).col() == if x as int > buf@[old(self).row()].len() {
                buf@[old(self).row()].len() as int
            } else {
                x as int
            },
            final(self).row() == old(self).row(),
    {
        let line_len = buf.line_length(self.y);
        if x > line_len {
            self.x = line_len;
        } else {
            self.x = x;
        }
    }

    /// Moves the row to `y`, clamped at the last buffer row.
    pub fn move_y_to(&mut self, buf: &CodeBuffer, y: usize)
        requires
            buf.wf(),
        ensures
            final(self).row() == if y as int > buf@.len() - 1 {
                buf@.len() - 1
            } else {
                y as int
            },
            final(self).col() == old(self).col(),
            final(self).on_buffer(buf),
    {
        let buf_len = buf.line_count();
        if y > buf_len - 1 {
            self.y = buf_len - 1;
        } else {
            self.y = y;
        }
    }

    /// Moves column and row together, with the same clamping as the
    /// single-axis moves.
    pub fn move_to(&mut self, buf: &CodeBuffer, x: usize, y: usize)
        requires
            buf.wf(),
            old(self).on_buffer(buf),
        ensures
            final(self).col() == if x as int > buf@[old(self).row()].len() {
                buf@[old(self).row()].len() as int
            } else {
                x as int
            },
            final(self).row() == if y as int > buf@.len() - 1 {
                buf@.len() - 1
            } else {
                y as int
            },
            final(self).on_buffer(buf),
    {
        self.move_x_to(buf, x);
        self.move_y_to(buf, y);
    }

    /// The clamped (column, row) pair used for rendering and as the
    /// anchor of every text edit: the column never exceeds the current
    /// line length.
    pub fn get_display(&self, buf: &CodeBuffer) -> (r: (usize, usize))
        requires
            self.on_buffer(buf),
        ensures
            r.0 as int == if self.col() > buf@[self.row()].len() {
                buf@[self.row()].len() as int
            } else {
                self.col()
            },
            r.1 as int == self.row(),
            r.0 <= buf@[self.row()].len(),
            r.1 < buf@.len(),
    {
        let line_len = buf.line_length(self.y);
        let x = if self.x > line_len {
            line_len
        } else {
            self.x
        };
        (x, self.y)
    }

    /// One column to the left, viewport kept in step.
    pub fn cmd_left(&mut self, buf: &CodeBuffer, offset: &mut Vec2<usize>, visible_rows: usize)
        requires
            buf.wf(),
            old(self).on_buffer(buf),
            visible_rows >= 1,
            old(offset).y <= old(self).row(),
        ensures
            final(self).col() == spec_move_x(old(self).col(), -1, buf@[old(self).row()].len() as int),
            final(self).row() == old(self).row(),
            final(offset).y == spec_scroll_y(old(offset).y as int, final(self).row(), 0, visible_rows as int),
            final(offset).y <= final(self).row(),
            final(self).row() < final(offset).y + visible_rows,
            final(offset).x == old(offset).x,
    {
        self.move_by(buf, offset, -1, 0, visible_rows);
    }

    /// One column to the right, viewport kept in step.
    pub fn cmd_right(&mut self, buf: &CodeBuffer, offset: &mut Vec2<usize>, visible_rows: usize)
        requires
            buf.wf(),
            old(self).on_buffer(buf),
            visible_rows >= 1,
            old(offset).y <= old(self).row(),
        ensures
            final(self).col() == spec_move_x(old(self).col(), 1, buf@[old(self).row()].len() as int),
            final(self).row() == old(self).row(),
            final(offset).y == spec_scroll_y(old(offset).y as int, final(self).row(), 0, visible_rows as int),
            final(offset).y <= final(self).row(),
            final(self).row() < final(offset).y + visible_rows,
            final(offset).x == old(offset).x,
    {
        self.move_by(buf, offset, 1, 0, visible_rows);
    }

    /// One row up, viewport kept in step.
    pub fn cmd_up(&mut self, buf: &CodeBuffer, offset: &mut Vec2<usize>, visible_rows: usize)
        requires
            buf.wf(),
            old(self).on_buffer(buf),
            visible_rows >= 1,
            old(offset).y <= old(self).row(),
        ensures
            final(self).col() == old(self).col(),
            final(self).row() == spec_move_y(old(self).row(), -1, buf@.len() as int),
            final(self).on_buffer(buf),
            final(offset).y == spec_scroll_y(old(offset).y as int, final(self).row(), -1, visible_rows as int),
            final(offset).y <= final(self).row(),
            old(self).row() < old(offset).y + visible_rows ==> final(self).row() < final(offset).y
                + visible_rows,
            final(offset).x == old(offset).x,
    {
        self.move_by(buf, offset, 0, -1, visible_rows);
    }

    /// One row down, viewport kept in step.
    pub fn cmd_down(&mut self, buf: &CodeBuffer, offset: &mut Vec2<usize>, visible_rows: usize)
        requires
            buf.wf(),
            old(self).on_buffer(buf),
            visible_rows >= 1,
            old(offset).y <= old(self).row(),
        ensures
            final(self).col() == old(self).col(),
            final(self).row() == spec_move_y(old(self).row(), 1, buf@.len() as int),
            final(self).on_buffer(buf),
            final(offset).y == spec_scroll_y(old(offset).y as int, final(self).row(), 1, visible_rows as int),
            final(offset).y <= final(self).row(),
            final(self).row() < final(offset).y + visible_rows,
            final(offset).x == old(offset).x,
    {
        self.move_by(buf, offset, 0, 1, visible_rows);
    }

    /// To the first row, scrolling the viewport to the top.
    pub fn cmd_top(&mut self, buf: &CodeBuffer, offset: &mut Vec2<usize>)
        requires
            buf.wf(),
        ensures
            final(self).row() == 0,
            final(self).col() == old(self).col(),
            final(self).on_buffer(buf),
            final(offset).y == 0,
            final(offset).x == old(offset).x,
    {
        self.move_y_to(buf, 0);
        offset.y = 0;
    }

    /// To the last row, scrolling it to the top of the viewport.
    pub fn cmd_bottom(&mut self, buf: &CodeBuffer, offset: &mut Vec2<usize>)
        requires
            buf.wf(),
        ensures
            final(self).row() == buf@.len() - 1,
            final(self).col() == old(self).col(),
            final(self).on_buffer(buf),
            final(offset).y == buf@.len() - 1,
            final(offset).x == old(offset).x,
    {
        let last = buf.line_count() - 1;
        self.move_y_to(buf, last);
        offset.y = last;
    }

    /// To the start of the current line.
    pub fn cmd_line_start(&mut self, buf: &CodeBuffer)
        requires
            old(self).on_buffer(buf),
        ensures
            final(self).col() == 0,
            final(self).row() == old(self).row(),
    {
        self.move_x_to(buf, 0);
    }

    /// To the end of the current line (the one-past-end insertion
    /// point).
    pub fn cmd_line_end(&mut self, buf: &CodeBuffer)
        requires
            old(self).on_buffer(buf),
        ensures
            final(self).col() == buf@[old(self).row()].len(),
            final(self).row() == old(self).row(),
    {
        let line_len = buf.line_length(self.y);
        self.move_x_to(buf, line_len);
    }

    /// Registers the cursor-movement commands in the registry.
    pub fn register_cmds(cmds: &mut EditorCommand)
        ensures
            final(cmds).commands() == old(cmds).commands().push(("left"@, CommandKind::Left)).push(
                ("right"@, CommandKind::Right),
            ).push(("up"@, CommandKind::Up)).push(("down"@, CommandKind::Down)).push(
                ("top"@, CommandKind::Top),
            ).push(("bottom"@, CommandKind::Bottom)).push(
                ("line_start"@, CommandKind::LineStart),
            ).push(("line_end"@, CommandKind::LineEnd)),
    {
        cmds.register("left", CommandKind::Left);
        cmds.register("right", CommandKind::Right);
        cmds.register("up", CommandKind::Up);
        cmds.register("down", CommandKind::Down);
        cmds.register("top", CommandKind::Top);
        cmds.register("bottom", CommandKind::Bottom);
        cmds.register("line_start", CommandKind::LineStart);
        cmds.register("line_end", CommandKind::LineEnd);
    }
}

} // verus!
