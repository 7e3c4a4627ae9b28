//! Where the panes stand on a frame, and where the cursor falls on it.

use vstd::prelude::*;
use vstd::string::*;
use crate::geometry::{Geometry, ADDRESS_COLUMN_WIDTH};
use crate::popup::Area;
use crate::scroll::ViewState;

verus! {

/// What the pane to the right of the hex editor shows.
#[derive(Clone, Copy, Debug, PartialEq, Eq, Structural)]
pub enum InfoMode {
    Text,
    Assembly,
}

/// The areas of a frame.
#[derive(Clone, Copy, Debug, PartialEq, Eq, Structural)]
pub struct FrameLayout {
    /// The status line at the bottom.
    pub output: Area,
    pub address: Area,
    pub hex_editor: Area,
    pub info_view: Area,
}

/// Columns of the hex editor: three for each byte and one for each block.
pub open spec fn hex_pane_width(geometry: Geometry) -> int {
    3 * geometry.row_bytes() + geometry.blocks_per_row
}

/// Columns of the text pane: two for each byte and one between blocks.
pub open spec fn text_pane_width(geometry: Geometry) -> int {
    2 * geometry.row_bytes() + geometry.blocks_per_row - 1
}

/// Columns of the pane to the right of the hex editor: its own width for
/// text, what the frame leaves free but for two columns for assembly.
pub open spec fn info_pane_width(geometry: Geometry, mode: InfoMode, frame_width: u16) -> int {
    match mode {
        InfoMode::Text => text_pane_width(geometry),
        InfoMode::Assembly => frame_width - ADDRESS_COLUMN_WIDTH - hex_pane_width(geometry) - 2,
    }
}

/// The frame has a row for the status line and one more, and the panes
/// can be placed: every corner and width is a screen coordinate.
pub open spec fn frame_holds(geometry: Geometry, mode: InfoMode, frame_width: u16, frame_height: u16) -> bool {
    &&& frame_height >= 2
    &&& info_pane_width(geometry, mode, frame_width) >= 0
    &&& ADDRESS_COLUMN_WIDTH + hex_pane_width(geometry) + info_pane_width(geometry, mode, frame_width) <= u16::MAX
}

/// The areas of a frame: the status line on the last row, and above it
/// from the left the address pane, the hex editor and the info pane.
pub open spec fn frame_layout_of(geometry: Geometry, mode: InfoMode, frame_width: u16, frame_height: u16) -> FrameLayout {
    let tall = (frame_height - 1) as u16;
    let hex = hex_pane_width(geometry);
    FrameLayout {
        output: Area { x: 0, y: tall, width: frame_width, height: 1 },
        address: Area { x: 0, y: 0, width: ADDRESS_COLUMN_WIDTH, height: tall },
        hex_editor: Area { x: ADDRESS_COLUMN_WIDTH, y: 0, width: hex as u16, height: tall },
        info_view: Area {
            x: (ADDRESS_COLUMN_WIDTH + hex) as u16,
            y: 0,
            width: info_pane_width(geometry, mode, frame_width) as u16,
            height: tall,
        },
    }
}

/// The areas of a frame of the given size, where it holds the panes.
pub fn frame_layout(geometry: &Geometry, mode: InfoMode, frame_width: u16, frame_height: u16) -> (r: Option<FrameLayout>)
    requires
        geometry.wf(),
    ensures
        frame_holds(*geometry, mode, frame_width, frame_height) ==> r == Some(
            frame_layout_of(*geometry, mode, frame_width, frame_height),
        ),
        !frame_holds(*geometry, mode, frame_width, frame_height) ==> r is None,
{
    let per_row = geometry.bytes_per_row();
    let blocks = geometry.blocks_per_row;
    if frame_height < 2 || per_row > 0xFFFF || blocks > 0xFFFF {
        proof {
            assert(geometry.blocks_per_row <= geometry.row_bytes()) by (nonlinear_arith)
                requires
                    geometry.block_size >= 1,
                    geometry.blocks_per_row >= 1,
                    geometry.row_bytes() == geometry.block_size * geometry.blocks_per_row,
            ;
        }
        return None;
    }
    let hex: usize = 3 * per_row + blocks;
    let tall: u16 = frame_height - 1;
    let info: usize = match mode {
        InfoMode::Text => 2 * per_row + blocks - 1,
        InfoMode::Assembly => {
            if (frame_width as usize) < ADDRESS_COLUMN_WIDTH as usize + hex + 2 {
                return None;
            }
            frame_width as usize - ADDRESS_COLUMN_WIDTH as usize - hex - 2
        },
    };
    if ADDRESS_COLUMN_WIDTH as usize + hex + info > 0xFFFF {
        return None;
    }
    Some(
        FrameLayout {
            output: Area { x: 0, y: tall, width: frame_width, height: 1 },
            address: Area { x: 0, y: 0, width: ADDRESS_COLUMN_WIDTH, height: tall },
            hex_editor: Area { x: ADDRESS_COLUMN_WIDTH, y: 0, width: hex as u16, height: tall },
            info_view: Area { x: ADDRESS_COLUMN_WIDTH + hex as u16, y: 0, width: info as u16, height: tall },
        },
    )
}

/// The title of the hex editor: its name, and a star where the buffer was
/// edited.
pub open spec fn editor_title_text(dirty: bool) -> Seq<char> {
    if dirty {
        "Hex Editor"@ + " *"@
    } else {
        "Hex Editor"@
    }
}

/// The title of the hex editor.
pub fn editor_title(dirty: bool) -> (title: String)
    ensures
        title@ == editor_title_text(dirty),
{
    let mut title = String::from_str("Hex Editor");
    if dirty {
        title.append(" *");
    }
    title
}

/// Column of the hex editor's area, border included, at which the byte at
/// position `column` of a row begins.
pub open spec fn hex_column(column: int, block_size: int) -> int {
    1 + 3 * column + column / block_size
}

/// The cursor is on a row that a viewport of `visible_rows` rows shows,
/// and its place is a screen coordinate.
pub open spec fn cursor_shown(geometry: Geometry, state: ViewState, visible_rows: u16) -> bool {
    &&& state.scroll <= state.cursor.row < state.scroll + visible_rows
    &&& ADDRESS_COLUMN_WIDTH + hex_column(state.cursor.column as int, geometry.block_size as int) <= u16::MAX
}

/// Column and row of the frame on which the cursor falls in the hex
/// editor, where it is on a visible row.
pub fn cursor_on_screen(geometry: &Geometry, state: &ViewState, visible_rows: u16) -> (r: Option<(u16, u16)>)
    requires
        geometry.wf(),
    ensures
        cursor_shown(*geometry, *state, visible_rows) ==> r == Some(
            (
                (ADDRESS_COLUMN_WIDTH + hex_column(state.cursor.column as int, geometry.block_size as int)) as u16,
                (1 + state.cursor.row - state.scroll) as u16,
            ),
        ),
        !cursor_shown(*geometry, *state, visible_rows) ==> r is None,
{
    let column = state.cursor.column;
    let row = state.cursor.row;
    if row < state.scroll || row - state.scroll >= visible_rows as usize || column > 0xFFFF {
        return None;
    }
    let x: usize = ADDRESS_COLUMN_WIDTH as usize + 1 + 3 * column + column / geometry.block_size;
    if x > 0xFFFF {
        return None;
    }
    Some((x as u16, (1 + (row - state.scroll)) as u16))
}

} // verus!
