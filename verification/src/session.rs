//! One open file: its buffer, header, instruction index, row geometry and
//! view state, kept consistent across edits and resizes.

use vstd::prelude::*;
use crate::context::{Logger, NotificationLevel};
use crate::decoder::{askable, decode, regions_of, DecodedRegion};
use crate::geometry::{blocks_per_row_for, Geometry, DEFAULT_BLOCK_SIZE};
use crate::header::{Architecture, Bitness, Header};
use crate::index::{flatten, lookup, OffsetIndex};
use crate::report::{header_report, report_header};
use crate::scroll::{clamped, shifted, visible_range, window_end, Cursor, ViewState};
use crate::view::{count_rows, row_count, Views};

verus! {

/// The four panes that show the buffer.
#[derive(Clone, Copy, Debug, PartialEq, Eq, Structural)]
pub enum Pane {
    Address,
    Hex,
    Text,
    Assembly,
}

/// `index` holds the instructions of the code regions that `header`
/// designates in `buffer`, each region tiled by what `decode_one` answers.
pub open spec fn indexes<D>(index: OffsetIndex, decode_one: &D, buffer: Seq<u8>, header: Header) -> bool
    where D: Fn(&[u8], usize, Architecture, Bitness) -> Option<(String, usize)>
{
    &&& index.wf()
    &&& exists|regions: Seq<DecodedRegion>|
        {
            &&& header.code_regions_are(buffer.len() as int, #[trigger] regions_of(regions))
            &&& forall|k: int|
                0 <= k < regions.len() ==> (#[trigger] regions[k]).decoded(
                    decode_one,
                    buffer,
                    header.spec_architecture(),
                    header.spec_bitness(),
                )
            &&& index.instructions@ == flatten(regions)
        }
}

/// `parse` and `decode_one` may be asked about any bytes, and `decode_one`
/// at any offset inside them.
pub open spec fn callable<P, D>(parse: &P, decode_one: &D) -> bool
    where
        P: Fn(&[u8]) -> Header,
        D: Fn(&[u8], usize, Architecture, Bitness) -> Option<(String, usize)>,
{
    &&& forall|bytes: &[u8]| #[trigger] parse.requires((bytes,))
    &&& forall|architecture: Architecture, bitness: Bitness| #[trigger] askable(decode_one, architecture, bitness)
}

/// `header` is what `parse` may answer for `buffer`, kept where it is
/// consistent with the buffer and dropped where it is not.
pub open spec fn parsed_by<P>(header: Header, parse: &P, buffer: Seq<u8>) -> bool
    where P: Fn(&[u8]) -> Header
{
    exists|bytes: &[u8], raw: Header|
        bytes@ == buffer && #[trigger] parse.ensures((bytes,), raw) && header == Header::accepted(raw, buffer.len() as int)
}

/// An open file with everything derived from it.
pub struct App<P, D> where
    P: Fn(&[u8]) -> Header,
    D: Fn(&[u8], usize, Architecture, Bitness) -> Option<(String, usize)>,
 {
    pub path: String,
    pub data: Vec<u8>,
    pub header: Header,
    pub index: OffsetIndex,
    pub geometry: Geometry,
    pub state: ViewState,
    pub focus: Pane,
    pub screen_size: (u16, u16),
    pub logger: Logger,
    pub parse: P,
    pub decode_one: D,
}

impl<P, D> App<P, D> where
    P: Fn(&[u8]) -> Header,
    D: Fn(&[u8], usize, Architecture, Bitness) -> Option<(String, usize)>,
 {
    /// Rows of the address, hex and text projections.
    pub open spec fn rows(self) -> int {
        row_count(self.data@.len() as int, self.geometry.row_bytes())
    }

    /// Rows of `pane`: those of the fixed-width projections, or the
    /// instructions for the assembly pane.
    pub open spec fn pane_rows(self, pane: Pane) -> int {
        match pane {
            Pane::Assembly => self.index.instructions@.len() as int,
            _ => self.rows(),
        }
    }

    /// Columns over which the cursor moves in `pane`: the bytes of a row
    /// in the hex and text panes, a single one elsewhere.
    pub open spec fn pane_columns(self, pane: Pane) -> int {
        match pane {
            Pane::Hex => self.geometry.row_bytes(),
            Pane::Text => self.geometry.row_bytes(),
            _ => 1,
        }
    }

    /// Buffer, header, index, path and collaborators are those of `other`.
    pub open spec fn same_file(self, other: Self) -> bool {
        &&& self.path == other.path
        &&& self.data == other.data
        &&& self.header == other.header
        &&& self.index == other.index
        &&& self.parse == other.parse
        &&& self.decode_one == other.decode_one
    }

    /// The row that `pane` is scrolled to.
    pub open spec fn pane_scroll(self, pane: Pane) -> int {
        match pane {
            Pane::Assembly => self.state.assembly_scroll as int,
            _ => self.state.scroll as int,
        }
    }

    /// Columns over which the cursor moves in the focused pane.
    pub open spec fn cursor_columns(self) -> int {
        self.pane_columns(self.focus)
    }

    /// Rows over which the cursor moves in the focused pane.
    pub open spec fn cursor_rows(self) -> int {
        self.pane_rows(self.focus)
    }

    /// `after` is this session seen on a screen of `width` columns and
    /// `height` rows: the geometry is that of the new width, the rows are
    /// scrolled to where they were or to the last row, the cursor stands
    /// where it stood or on the last column and row, and the rest is
    /// unchanged.
    pub open spec fn resized(self, after: Self, width: u16, height: u16) -> bool {
        &&& after.same_file(self)
        &&& after.logger == self.logger
        &&& after.focus == self.focus
        &&& after.screen_size == (width, height)
        &&& after.geometry.block_size == self.geometry.block_size
        &&& after.geometry.blocks_per_row == blocks_per_row_for(width as int, self.geometry.block_size as int)
        &&& after.state.dirty == self.state.dirty
        &&& after.state.scroll == clamped(self.state.scroll as int, after.rows())
        &&& after.state.assembly_scroll == self.state.assembly_scroll
        &&& after.state.cursor.column == clamped(self.state.cursor.column as int, after.cursor_columns())
        &&& after.state.cursor.row == clamped(self.state.cursor.row as int, after.cursor_rows())
    }

    /// `after` differs from this session in the view state alone.
    pub open spec fn same_but_state(self, after: Self) -> bool {
        &&& after.same_file(self)
        &&& after.logger == self.logger
        &&& after.geometry == self.geometry
        &&& after.focus == self.focus
        &&& after.screen_size == self.screen_size
    }

    /// `after` is this session with the address, hex and text panes
    /// scrolled by `delta` rows, kept inside their rows; the assembly pane
    /// and all else are unchanged.
    pub open spec fn scrolled(self, after: Self, delta: int) -> bool {
        &&& self.same_but_state(after)
        &&& after.state.scroll == shifted(self.state.scroll as int, delta, self.rows())
        &&& after.state.assembly_scroll == self.state.assembly_scroll
        &&& after.state.cursor == self.state.cursor
        &&& after.state.dirty == self.state.dirty
    }

    /// `after` is this session with the assembly pane scrolled by `delta`
    /// instructions, kept inside the instructions; the other panes and all
    /// else are unchanged.
    pub open spec fn assembly_scrolled(self, after: Self, delta: int) -> bool {
        &&& self.same_but_state(after)
        &&& after.state.assembly_scroll == shifted(
            self.state.assembly_scroll as int,
            delta,
            self.index.instructions@.len() as int,
        )
        &&& after.state.scroll == self.state.scroll
        &&& after.state.cursor == self.state.cursor
        &&& after.state.dirty == self.state.dirty
    }

    /// `after` is this session with the cursor moved by `columns` and
    /// `rows`, kept inside the focused pane; nothing is scrolled and all
    /// else is unchanged.
    pub open spec fn cursor_moved(self, after: Self, columns: int, rows: int) -> bool {
        &&& self.same_but_state(after)
        &&& after.state.cursor.column == shifted(self.state.cursor.column as int, columns, self.cursor_columns())
        &&& after.state.cursor.row == shifted(self.state.cursor.row as int, rows, self.cursor_rows())
        &&& after.state.scroll == self.state.scroll
        &&& after.state.assembly_scroll == self.state.assembly_scroll
        &&& after.state.dirty == self.state.dirty
    }

    /// `after` is this session with the cursor given to `pane` and brought
    /// into it; all else is unchanged.
    pub open spec fn refocused(self, after: Self, pane: Pane) -> bool {
        &&& after.same_file(self)
        &&& after.logger == self.logger
        &&& after.geometry == self.geometry
        &&& after.screen_size == self.screen_size
        &&& after.focus == pane
        &&& after.state.scroll == self.state.scroll
        &&& after.state.assembly_scroll == self.state.assembly_scroll
        &&& after.state.dirty == self.state.dirty
        &&& after.state.cursor.column == clamped(self.state.cursor.column as int, after.cursor_columns())
        &&& after.state.cursor.row == clamped(self.state.cursor.row as int, after.cursor_rows())
    }

    /// `after` is this session with `byte` written at `offset` and marked
    /// as edited. The rows stay scrolled as they were; the assembly pane
    /// and the cursor's row are where they were or on the last of what
    /// there is now. Header and index are those of the new buffer, which
    /// `wf` says of `after`.
    pub open spec fn edited(self, after: Self, offset: int, byte: u8) -> bool {
        &&& after.data@ == self.data@.update(offset, byte)
        &&& after.state.dirty
        &&& after.state.scroll == self.state.scroll
        &&& after.state.assembly_scroll == clamped(
            self.state.assembly_scroll as int,
            after.index.instructions@.len() as int,
        )
        &&& after.state.cursor.column == self.state.cursor.column
        &&& after.state.cursor.row == clamped(self.state.cursor.row as int, after.cursor_rows())
        &&& after.path == self.path
        &&& after.logger == self.logger
        &&& after.geometry == self.geometry
        &&& after.focus == self.focus
        &&& after.screen_size == self.screen_size
        &&& after.parse == self.parse
        &&& after.decode_one == self.decode_one
    }

    /// The offset of the byte under the cursor.
    pub open spec fn cursor_offset(self) -> int {
        self.state.cursor.row * self.geometry.row_bytes() + self.state.cursor.column
    }

    /// The cursor stands on a byte: it is in the hex editor or the text
    /// pane, and its row, which may be the short last one, reaches as far
    /// as its column.
    pub open spec fn on_byte(self) -> bool {
        &&& self.focus == Pane::Hex || self.focus == Pane::Text
        &&& self.cursor_offset() < self.data@.len()
    }

    /// The derived parts belong to the buffer: the header was parsed from
    /// it, the index was decoded from it under that header, the geometry
    /// is that of the screen, and the view state points inside the views.
    pub open spec fn wf(self) -> bool {
        &&& callable(&self.parse, &self.decode_one)
        &&& self.header.wf(self.data@.len() as int)
        &&& parsed_by(self.header, &self.parse, self.data@)
        &&& indexes(self.index, &self.decode_one, self.data@, self.header)
        &&& self.geometry.wf()
        &&& self.geometry.block_size == DEFAULT_BLOCK_SIZE
        &&& self.geometry.blocks_per_row == blocks_per_row_for(self.screen_size.0 as int, DEFAULT_BLOCK_SIZE as int)
        &&& self.state.fits(self.rows(), self.index.instructions@.len() as int, self.cursor_columns(), self.cursor_rows())
    }

    /// Parses and decodes `data` and derives the index from it.
    fn analyse(parse: &P, decode_one: &D, data: &Vec<u8>) -> (r: (Header, OffsetIndex))
        requires
            callable(parse, decode_one),
        ensures
            r.0.wf(data@.len() as int),
            parsed_by(r.0, parse, data@),
            indexes(r.1, decode_one, data@, r.0),
    {
        let header = Header::parse_header(parse, data.as_slice());
        let regions = decode(decode_one, data.as_slice(), &header);
        let ghost witness = regions@;
        proof {
            assert forall|a: int, b: int| 0 <= a < b < witness.len() implies (#[trigger] witness[a]).region.end
                <= (#[trigger] witness[b]).region.start by {
                assert(regions_of(witness)[a] == witness[a].region);
                assert(regions_of(witness)[b] == witness[b].region);
            }
        }
        let index = OffsetIndex::build(regions);
        proof {
            assert(header.code_regions_are(data@.len() as int, regions_of(witness)));
        }
        (header, index)
    }

    /// A session on `data`, the content of the file at `path`, for a
    /// screen of `screen_size` columns and rows. Nothing is scrolled and
    /// nothing is edited; the assembly pane starts at the instruction that
    /// holds the first visible byte.
    pub fn new(path: String, data: Vec<u8>, screen_size: (u16, u16), parse: P, decode_one: D) -> (app: Self)
        requires
            callable(&parse, &decode_one),
        ensures
            app.wf(),
            app.path == path,
            app.data@ == data@,
            app.screen_size == screen_size,
            app.parse == parse,
            app.decode_one == decode_one,
            app.focus == Pane::Hex,
            app.state.scroll == 0,
            app.state.assembly_scroll == lookup(app.index.offsets@, 0),
            app.state.cursor == (Cursor { column: 0, row: 0 }),
            !app.state.dirty,
            app.logger.view().len() == 0,
    {
        let (header, index) = Self::analyse(&parse, &decode_one, &data);
        let geometry = Geometry::for_width(screen_size.0, DEFAULT_BLOCK_SIZE);
        let mut state = ViewState::new();
        proof {
            vstd::arithmetic::mul::lemma_mul_basics(geometry.row_bytes());
            crate::index::lookup_in_range(index.offsets@, 0);
        }
        state.assembly_scroll = index.offset_to_instruction_index(0);
        App { path, data, header, index, geometry, state, focus: Pane::Hex, screen_size, logger: Logger::new(), parse, decode_one }
    }

    /// Number of rows of `pane`.
    pub fn row_count(&self, pane: Pane) -> (n: usize)
        requires
            self.wf(),
        ensures
            n == self.pane_rows(pane),
    {
        match pane {
            Pane::Assembly => self.index.len(),
            _ => count_rows(self.data.len(), &self.geometry),
        }
    }

    /// Number of columns over which the cursor moves in `pane`.
    pub fn column_count(&self, pane: Pane) -> (n: usize)
        requires
            self.wf(),
        ensures
            n == self.pane_columns(pane),
    {
        match pane {
            Pane::Hex => self.geometry.bytes_per_row(),
            Pane::Text => self.geometry.bytes_per_row(),
            _ => 1,
        }
    }

    /// Brings the view state back into the views as they are now.
    fn settle(&mut self)
        requires
            callable(&old(self).parse, &old(self).decode_one),
            old(self).header.wf(old(self).data@.len() as int),
            parsed_by(old(self).header, &old(self).parse, old(self).data@),
            indexes(old(self).index, &old(self).decode_one, old(self).data@, old(self).header),
            old(self).geometry.wf(),
            old(self).geometry.block_size == DEFAULT_BLOCK_SIZE,
            old(self).geometry.blocks_per_row == blocks_per_row_for(
                old(self).screen_size.0 as int,
                DEFAULT_BLOCK_SIZE as int,
            ),
        ensures
            final(self).logger == old(self).logger,
            final(self).wf(),
            final(self).same_file(*old(self)),
            final(self).geometry == old(self).geometry,
            final(self).focus == old(self).focus,
            final(self).screen_size == old(self).screen_size,
            final(self).state.dirty == old(self).state.dirty,
            final(self).state.scroll == clamped(old(self).state.scroll as int, final(self).rows()),
            final(self).state.assembly_scroll == clamped(
                old(self).state.assembly_scroll as int,
                final(self).index.instructions@.len() as int,
            ),
            final(self).state.cursor.column == clamped(old(self).state.cursor.column as int, final(self).cursor_columns()),
            final(self).state.cursor.row == clamped(old(self).state.cursor.row as int, final(self).cursor_rows()),
    {
        let rows = count_rows(self.data.len(), &self.geometry);
        let instructions = self.index.len();
        let (width, height) = match self.focus {
            Pane::Hex => (self.geometry.bytes_per_row(), rows),
            Pane::Text => (self.geometry.bytes_per_row(), rows),
            Pane::Assembly => (1, instructions),
            Pane::Address => (1, rows),
        };
        self.state.clamp(rows, instructions, width, height);
    }

    /// Replaces everything by a session on `data`, the content of the file
    /// at `path`. The screen and the two collaborators stay.
    pub fn open(&mut self, path: String, data: Vec<u8>)
        requires
            old(self).wf(),
        ensures
            final(self).wf(),
            final(self).path == path,
            final(self).data@ == data@,
            final(self).screen_size == old(self).screen_size,
            final(self).geometry == old(self).geometry,
            final(self).parse == old(self).parse,
            final(self).decode_one == old(self).decode_one,
            final(self).focus == Pane::Hex,
            final(self).state.scroll == 0,
            final(self).state.assembly_scroll == lookup(final(self).index.offsets@, 0),
            final(self).state.cursor == (Cursor { column: 0, row: 0 }),
            !final(self).state.dirty,
    {
        let (header, index) = Self::analyse(&self.parse, &self.decode_one, &data);
        proof {
            crate::index::lookup_in_range(index.offsets@, 0);
        }
        let at = index.offset_to_instruction_index(0);
        self.path = path;
        self.data = data;
        self.header = header;
        self.index = index;
        self.focus = Pane::Hex;
        self.state = ViewState::new();
        self.state.assembly_scroll = at;
    }

    /// Writes `byte` at `offset`, marks the buffer as edited, parses the
    /// header and decodes the code regions anew, and brings the view state
    /// back into the views.
    pub fn apply_edit(&mut self, offset: usize, byte: u8)
        requires
            old(self).wf(),
            offset < old(self).data@.len(),
        ensures
            final(self).wf(),
            old(self).edited(*final(self), offset as int, byte),
    {
        self.data.set(offset, byte);
        self.state.dirty = true;
        let (header, index) = Self::analyse(&self.parse, &self.decode_one, &self.data);
        self.header = header;
        self.index = index;
        self.settle();
    }

    /// The offset of the byte under the cursor, where it stands on one.
    pub fn byte_under_cursor(&self) -> (r: Option<usize>)
        requires
            self.wf(),
        ensures
            self.on_byte() ==> r == Some(self.cursor_offset() as usize),
            !self.on_byte() ==> r is None,
    {
        match self.focus {
            Pane::Hex => {},
            Pane::Text => {},
            _ => {
                return None;
            },
        }
        let per_row = self.geometry.bytes_per_row();
        let len = self.data.len();
        let rows = count_rows(len, &self.geometry);
        let row = self.state.cursor.row;
        let column = self.state.cursor.column;
        if row >= rows {
            proof {
                assert(rows == 0);
                if len > 0 {
                    vstd::arithmetic::div_mod::lemma_fundamental_div_mod(len as int, per_row as int);
                    assert(rows > 0) by (nonlinear_arith)
                        requires
                            len > 0,
                            per_row > 0,
                            len == per_row * (len / per_row) + len % per_row,
                            rows == len / per_row + if len % per_row == 0 { 0int } else { 1int },
                            0 <= len % per_row,
                            0 <= len / per_row,
                    ;
                }
            }
            return None;
        }
        proof {
            crate::view::rows_tile_buffer(len as int, per_row as int, row as int);
        }
        let start: usize = row * per_row;
        if column < len - start {
            Some(start + column)
        } else {
            None
        }
    }

    /// Takes note of a screen of `width` columns and `height` rows: the
    /// geometry is computed anew and the view state brought back into the
    /// views. Buffer, header and index stay as they are.
    pub fn on_resize(&mut self, width: u16, height: u16)
        requires
            old(self).wf(),
        ensures
            final(self).wf(),
            old(self).resized(*final(self), width, height),
    {
        self.screen_size = (width, height);
        self.geometry = Geometry::for_width(width, DEFAULT_BLOCK_SIZE);
        self.settle();
    }

    /// Gives the cursor to `pane` and brings it into that pane.
    pub fn set_focus(&mut self, pane: Pane)
        requires
            old(self).wf(),
        ensures
            final(self).wf(),
            old(self).refocused(*final(self), pane),
    {
        self.focus = pane;
        self.settle();
    }

    /// Scrolls the address, hex and text panes by `delta_rows`, staying
    /// inside their rows. The assembly pane is not moved.
    pub fn scroll_by(&mut self, delta_rows: isize)
        requires
            old(self).wf(),
        ensures
            final(self).wf(),
            old(self).scrolled(*final(self), delta_rows as int),
    {
        let rows = count_rows(self.data.len(), &self.geometry);
        self.state.scroll_by(delta_rows, rows);
    }

    /// Scrolls the assembly pane by `delta_instructions`, staying inside
    /// the instructions. The other panes are not moved.
    pub fn assembly_scroll_by(&mut self, delta_instructions: isize)
        requires
            old(self).wf(),
        ensures
            final(self).wf(),
            old(self).assembly_scrolled(*final(self), delta_instructions as int),
    {
        let instructions = self.index.len();
        self.state.assembly_scroll_by(delta_instructions, instructions);
    }

    /// Moves the cursor by `delta_columns` and `delta_rows`, staying inside
    /// the focused pane. Nothing is scrolled.
    pub fn move_cursor(&mut self, delta_columns: isize, delta_rows: isize)
        requires
            old(self).wf(),
        ensures
            final(self).wf(),
            old(self).cursor_moved(*final(self), delta_columns as int, delta_rows as int),
    {
        let width = self.column_count(self.focus);
        let height = self.row_count(self.focus);
        self.state.move_cursor(delta_columns, delta_rows, width, height);
    }

    /// The rows `[start, end)` of `pane` that a viewport of
    /// `viewport_height` rows shows: from the pane's scroll position on, as
    /// many as fit and as there are.
    pub fn visible_row_range(&self, pane: Pane, viewport_height: usize) -> (r: (usize, usize))
        requires
            self.wf(),
        ensures
            r.0 == self.pane_scroll(pane),
            r.1 == window_end(r.0 as int, viewport_height as int, self.pane_rows(pane)),
            r.0 <= r.1 <= self.pane_rows(pane),
    {
        let count = self.row_count(pane);
        let scroll = match pane {
            Pane::Assembly => self.state.assembly_scroll,
            _ => self.state.scroll,
        };
        visible_range(scroll, viewport_height, count)
    }

    /// The address, hex and text projections of the buffer as it is now.
    pub fn views(&self) -> (views: Views)
        requires
            self.wf(),
        ensures
            views.shows(self.data@, self.geometry),
            views.address@.len() == self.rows(),
            views.hex@.len() == self.rows(),
            views.text@.len() == self.rows(),
    {
        Views::build(self.data.as_slice(), &self.geometry)
    }

    /// The bytes to write to the file: the buffer, byte for byte.
    pub fn contents(&self) -> (bytes: &Vec<u8>)
        ensures
            bytes@ == self.data@,
    {
        &self.data
    }

    /// Takes note that the buffer was written to the file.
    pub fn mark_saved(&mut self)
        requires
            old(self).wf(),
        ensures
            final(self).wf(),
            old(self).same_but_state(*final(self)),
            !final(self).state.dirty,
            final(self).state.scroll == old(self).state.scroll,
            final(self).state.assembly_scroll == old(self).state.assembly_scroll,
            final(self).state.cursor == old(self).state.cursor,
    {
        self.state.dirty = false;
    }

    /// Appends the report on the header to the log, line by line, each at
    /// the level of information.
    pub fn log_header_info(&mut self, help_key: &str)
        requires
            old(self).wf(),
        ensures
            final(self).wf(),
            final(self).logger.view() == old(self).logger.view() + header_report(
                old(self).header,
                help_key@,
            ).map_values(|line: Seq<char>| (NotificationLevel::Info, line)),
            final(self).same_file(*old(self)),
            final(self).state == old(self).state,
            final(self).geometry == old(self).geometry,
            final(self).focus == old(self).focus,
            final(self).screen_size == old(self).screen_size,
    {
        let len = self.data.len();
        proof {
            assert forall|k: int| 0 <= k < self.header.sections().len() implies (#[trigger] self.header.sections()[k]).end()
                <= usize::MAX by {
                assert(self.header.sections()[k].end() <= len);
            }
        }
        let lines = report_header(&self.header, help_key);
        let ghost wanted = header_report(self.header, help_key@).map_values(|line: Seq<char>| (NotificationLevel::Info, line));
        let mut i: usize = 0;
        proof {
            assert(self.logger.view() =~= old(self).logger.view() + wanted.subrange(0, 0));
        }
        while i < lines.len()
            invariant
                0 <= i <= lines@.len(),
                crate::report::texts(lines@) == header_report(old(self).header, help_key@),
                wanted == header_report(old(self).header, help_key@).map_values(
                    |line: Seq<char>| (NotificationLevel::Info, line),
                ),
                self.logger.view() == old(self).logger.view() + wanted.subrange(0, i as int),
                self.same_file(*old(self)),
                self.state == old(self).state,
                self.geometry == old(self).geometry,
                self.focus == old(self).focus,
                self.screen_size == old(self).screen_size,
            decreases lines@.len() - i,
        {
            let ghost before = self.logger.view();
            self.logger.log(NotificationLevel::Info, lines[i].as_str());
            proof {
                assert(crate::report::texts(lines@)[i as int] == lines@[i as int]@);
                assert(wanted[i as int] == (NotificationLevel::Info, lines@[i as int]@));
                assert(wanted.subrange(0, i as int + 1) =~= wanted.subrange(0, i as int).push(wanted[i as int]));
                assert(self.logger.view() =~= old(self).logger.view() + wanted.subrange(0, i as int + 1));
            }
            i = i + 1;
        }
        proof {
            assert(crate::report::texts(lines@).len() == lines@.len());
            assert(wanted.subrange(0, i as int) =~= wanted);
        }
    }
}

} // verus!
