//! Scroll positions and cursor of the panes, and the windows of rows that
//! they make visible.

use vstd::prelude::*;

verus! {

/// `value` brought into `0 .. count`: unchanged where it is a position of
/// a view of `count` rows, the last position where it lies beyond, zero
/// for a view without rows.
pub open spec fn clamped(value: int, count: int) -> int {
    if count <= 0 {
        0
    } else if value >= count {
        count - 1
    } else if value < 0 {
        0
    } else {
        value
    }
}

/// The position reached from `value` by `delta` rows in a view of `count`
/// rows.
pub open spec fn shifted(value: int, delta: int, count: int) -> int {
    clamped(value + delta, count)
}

/// End of the window of `height` rows that begins at `start` in a view of
/// `count` rows.
pub open spec fn window_end(start: int, height: int, count: int) -> int {
    if start + height <= count {
        start + height
    } else {
        count
    }
}

/// Brings `value` into the positions of a view of `count` rows.
pub fn clamp_index(value: usize, count: usize) -> (r: usize)
    ensures
        r == clamped(value as int, count as int),
{
    if count == 0 {
        0
    } else if value >= count {
        count - 1
    } else {
        value
    }
}

/// Moves `value` by `delta` rows inside a view of `count` rows.
pub fn shift_index(value: usize, delta: isize, count: usize) -> (r: usize)
    ensures
        r == shifted(value as int, delta as int, count as int),
{
    if count == 0 {
        0
    } else if delta >= 0 {
        let up: usize = delta as usize;
        if value >= count || up >= count - value {
            count - 1
        } else {
            value + up
        }
    } else {
        let down: usize = (-(delta + 1)) as usize;
        if down >= value {
            0
        } else {
            clamp_index(value - down - 1, count)
        }
    }
}

/// The window `[start, end)` of a view of `count` rows that a pane of
/// `height` rows shows when scrolled to `scroll`.
pub fn visible_range(scroll: usize, height: usize, count: usize) -> (r: (usize, usize))
    ensures
        r.0 == if scroll <= count { scroll } else { count },
        r.1 == window_end(r.0 as int, height as int, count as int),
        r.0 <= r.1 <= count,
{
    let start: usize = if scroll <= count { scroll } else { count };
    let end: usize = if height <= count - start { start + height } else { count };
    (start, end)
}

/// Column and row of the cursor in the pane that has the focus.
#[derive(Clone, Copy, Debug, PartialEq, Eq, Structural)]
pub struct Cursor {
    pub column: usize,
    pub row: usize,
}

/// Where the panes are scrolled to, where the cursor stands, and whether
/// the buffer differs from the file.
#[derive(Clone, Copy, Debug, PartialEq, Eq, Structural)]
pub struct ViewState {
    /// First visible row of the address, hex and text panes.
    pub scroll: usize,
    /// First visible instruction of the assembly pane.
    pub assembly_scroll: usize,
    /// The cursor in the pane that has the focus.
    pub cursor: Cursor,
    /// The buffer was edited since it was read or written.
    pub dirty: bool,
}

impl ViewState {
    /// Both scroll positions and the cursor are positions of their views:
    /// of `rows` fixed-width rows, of `instructions` instructions, and of a
    /// focused pane of `width` columns and `height` rows.
    pub open spec fn fits(self, rows: int, instructions: int, width: int, height: int) -> bool {
        &&& self.scroll == clamped(self.scroll as int, rows)
        &&& self.assembly_scroll == clamped(self.assembly_scroll as int, instructions)
        &&& self.cursor.column == clamped(self.cursor.column as int, width)
        &&& self.cursor.row == clamped(self.cursor.row as int, height)
    }

    /// The state of a file just read: everything at the top, nothing
    /// edited.
    pub fn new() -> (s: ViewState)
        ensures
            s == (ViewState { scroll: 0, assembly_scroll: 0, cursor: Cursor { column: 0, row: 0 }, dirty: false }),
    {
        ViewState { scroll: 0, assembly_scroll: 0, cursor: Cursor { column: 0, row: 0 }, dirty: false }
    }

    /// Scrolls the address, hex and text panes by `delta` rows. The
    /// assembly pane stays where it is.
    pub fn scroll_by(&mut self, delta: isize, rows: usize)
        ensures
            final(self).scroll == shifted(old(self).scroll as int, delta as int, rows as int),
            final(self).assembly_scroll == old(self).assembly_scroll,
            final(self).cursor == old(self).cursor,
            final(self).dirty == old(self).dirty,
    {
        self.scroll = shift_index(self.scroll, delta, rows);
    }

    /// Scrolls the assembly pane by `delta` instructions. The other panes
    /// stay where they are.
    pub fn assembly_scroll_by(&mut self, delta: isize, instructions: usize)
        ensures
            final(self).assembly_scroll == shifted(old(self).assembly_scroll as int, delta as int, instructions as int),
            final(self).scroll == old(self).scroll,
            final(self).cursor == old(self).cursor,
            final(self).dirty == old(self).dirty,
    {
        self.assembly_scroll = shift_index(self.assembly_scroll, delta, instructions);
    }

    /// Moves the cursor by `delta_columns` and `delta_rows` inside a pane
    /// of `width` columns and `height` rows. Nothing is scrolled.
    pub fn move_cursor(&mut self, delta_columns: isize, delta_rows: isize, width: usize, height: usize)
        ensures
            final(self).cursor.column == shifted(old(self).cursor.column as int, delta_columns as int, width as int),
            final(self).cursor.row == shifted(old(self).cursor.row as int, delta_rows as int, height as int),
            final(self).scroll == old(self).scroll,
            final(self).assembly_scroll == old(self).assembly_scroll,
            final(self).dirty == old(self).dirty,
    {
        self.cursor = Cursor {
            column: shift_index(self.cursor.column, delta_columns, width),
            row: shift_index(self.cursor.row, delta_rows, height),
        };
    }

    /// Brings both scroll positions and the cursor back into their views
    /// after these changed size.
    pub fn clamp(&mut self, rows: usize, instructions: usize, width: usize, height: usize)
        ensures
            final(self).scroll == clamped(old(self).scroll as int, rows as int),
            final(self).assembly_scroll == clamped(old(self).assembly_scroll as int, instructions as int),
            final(self).cursor.column == clamped(old(self).cursor.column as int, width as int),
            final(self).cursor.row == clamped(old(self).cursor.row as int, height as int),
            final(self).dirty == old(self).dirty,
            final(self).fits(rows as int, instructions as int, width as int, height as int),
    {
        self.scroll = clamp_index(self.scroll, rows);
        self.assembly_scroll = clamp_index(self.assembly_scroll, instructions);
        self.cursor = Cursor { column: clamp_index(self.cursor.column, width), row: clamp_index(self.cursor.row, height) };
    }
}

} // verus!
