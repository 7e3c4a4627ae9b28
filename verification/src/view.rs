//! The address, hex and text projections of a buffer: three sequences of
//! rows in which row `i` always stands for the same bytes.

use vstd::prelude::*;
use vstd::string::*;
use crate::format::{glyph, glyph_of, hex_byte_text, hex_fixed_text, push_hex_byte, push_hex_fixed, ADDRESS_DIGITS};
use crate::geometry::Geometry;

verus! {

/// Number of rows that `len` bytes take at `per_row` bytes a row.
pub open spec fn row_count(len: int, per_row: int) -> int {
    len / per_row + if len % per_row == 0 { 0int } else { 1int }
}

/// Offset of the first byte of row `i`.
pub open spec fn row_start(i: int, per_row: int) -> int {
    i * per_row
}

/// Offset after the last byte of row `i`: a full row further, or the end
/// of the buffer where that comes first.
pub open spec fn row_end(i: int, per_row: int, len: int) -> int {
    if (i + 1) * per_row <= len {
        (i + 1) * per_row
    } else {
        len
    }
}

/// The bytes that row `i` stands for.
pub open spec fn row_bytes(buffer: Seq<u8>, i: int, per_row: int) -> Seq<u8> {
    buffer.subrange(row_start(i, per_row), row_end(i, per_row, buffer.len() as int))
}

/// What follows the byte at position `j` of a hex row: one space, and a
/// second one where the byte closes a block.
pub open spec fn hex_separator(j: int, block_size: int) -> Seq<char> {
    if (j + 1) % block_size == 0 {
        seq![' ', ' ']
    } else {
        seq![' ']
    }
}

/// The hex row for `bytes`: each byte as two digits followed by its
/// separator.
pub open spec fn hex_row_text(bytes: Seq<u8>, block_size: int) -> Seq<char>
    decreases bytes.len(),
{
    if bytes.len() == 0 {
        Seq::<char>::empty()
    } else {
        hex_row_text(bytes.drop_last(), block_size) + hex_byte_text(bytes.last()) + hex_separator(
            bytes.len() - 1,
            block_size,
        )
    }
}

/// The text row for `bytes`: one glyph per byte.
pub open spec fn text_row_text(bytes: Seq<u8>) -> Seq<char> {
    Seq::new(bytes.len(), |j: int| glyph_of(bytes[j]))
}

/// The label of row `i`: the offset of its first byte.
pub open spec fn address_row_text(i: int, per_row: int) -> Seq<char> {
    hex_fixed_text(row_start(i, per_row), ADDRESS_DIGITS as nat)
}

/// The rows tile the buffer: row `i` begins where row `i - 1` ended, holds
/// between one byte and a full row, and only the last row may be short; it
/// ends at the end of the buffer.
pub proof fn rows_tile_buffer(len: int, per_row: int, i: int)
    requires
        len >= 0,
        per_row > 0,
        0 <= i < row_count(len, per_row),
    ensures
        0 <= row_start(i, per_row) < row_end(i, per_row, len) <= len,
        row_end(i, per_row, len) - row_start(i, per_row) <= per_row,
        i + 1 < row_count(len, per_row) ==> row_end(i, per_row, len) == row_start(i + 1, per_row),
        i + 1 < row_count(len, per_row) ==> row_end(i, per_row, len) - row_start(i, per_row) == per_row,
        i + 1 == row_count(len, per_row) ==> row_end(i, per_row, len) == len,
{
    vstd::arithmetic::div_mod::lemma_fundamental_div_mod(len, per_row);
    vstd::arithmetic::div_mod::lemma_mod_bound(len, per_row);
    let q = len / per_row;
    let r = len % per_row;
    assert(i * per_row < len) by (nonlinear_arith)
        requires
            len == per_row * q + r,
            0 <= r < per_row,
            0 <= i,
            i < q + if r == 0 { 0int } else { 1int },
    ;
    assert((i + 1) * per_row == i * per_row + per_row) by (nonlinear_arith);
    if i + 1 < row_count(len, per_row) {
        assert((i + 1) * per_row <= len) by (nonlinear_arith)
            requires
                len == per_row * q + r,
                0 <= r < per_row,
                0 <= i,
                i + 1 < q + if r == 0 { 0int } else { 1int },
        ;
    } else {
        assert((i + 1) * per_row >= len) by (nonlinear_arith)
            requires
                len == per_row * q + r,
                0 <= r < per_row,
                per_row > 0,
                i + 1 == q + if r == 0 { 0int } else { 1int },
        ;
    }
}

/// No row begins inside the buffer beyond the last one: the rows are as
/// many as the offsets `0, per_row, 2 * per_row, ..` below `len`.
pub proof fn rows_end_with_buffer(len: int, per_row: int, i: int)
    requires
        len >= 0,
        per_row > 0,
        0 <= i,
        i * per_row >= len,
    ensures
        i >= row_count(len, per_row),
{
    vstd::arithmetic::div_mod::lemma_fundamental_div_mod(len, per_row);
    vstd::arithmetic::div_mod::lemma_mod_bound(len, per_row);
    let q = len / per_row;
    let r = len % per_row;
    assert(i >= q + if r == 0 { 0int } else { 1int }) by (nonlinear_arith)
        requires
            len == per_row * q + r,
            0 <= r < per_row,
            0 <= i,
            i * per_row >= len,
    ;
}

/// Number of rows that `len` bytes take under `geometry`.
pub fn count_rows(len: usize, geometry: &Geometry) -> (n: usize)
    requires
        geometry.wf(),
    ensures
        n == row_count(len as int, geometry.row_bytes()),
{
    let per_row = geometry.bytes_per_row();
    let full: usize = len / per_row;
    if len % per_row == 0 {
        full
    } else {
        proof {
            vstd::arithmetic::div_mod::lemma_fundamental_div_mod(len as int, per_row as int);
            assert(full < len) by (nonlinear_arith)
                requires
                    len == per_row * full + len % per_row,
                    len % per_row > 0,
                    per_row > 0,
                    full >= 0,
            ;
        }
        full + 1
    }
}

/// Appends the hex rendering of `buffer[start..end)` to `out`, the bytes
/// taken as positions `0, 1, ..` of a row.
fn push_hex_row(out: &mut String, buffer: &[u8], start: usize, end: usize, block_size: usize)
    requires
        start <= end <= buffer@.len(),
        block_size > 0,
    ensures
        final(out)@ == old(out)@ + hex_row_text(buffer@.subrange(start as int, end as int), block_size as int),
{
    let mut j: usize = start;
    proof {
        assert(buffer@.subrange(start as int, start as int) =~= Seq::<u8>::empty());
        assert(out@ =~= old(out)@ + hex_row_text(buffer@.subrange(start as int, j as int), block_size as int));
    }
    while j < end
        invariant
            start <= j <= end <= buffer@.len(),
            block_size > 0,
            out@ == old(out)@ + hex_row_text(buffer@.subrange(start as int, j as int), block_size as int),
        decreases end - j,
    {
        let ghost before = out@;
        let b = buffer[j];
        push_hex_byte(out, b);
        out.push(' ');
        if (j - start + 1) % block_size == 0 {
            out.push(' ');
        }
        proof {
            let prev = buffer@.subrange(start as int, j as int);
            let next = buffer@.subrange(start as int, j as int + 1);
            assert(next.drop_last() =~= prev);
            assert(next.last() == b);
            assert(next.len() - 1 == j - start);
            assert(out@ =~= before + hex_byte_text(b) + hex_separator(j - start, block_size as int));
            assert(out@ =~= old(out)@ + hex_row_text(next, block_size as int));
        }
        j = j + 1;
    }
}

/// Appends the glyphs of `buffer[start..end)` to `out`.
fn push_text_row(out: &mut String, buffer: &[u8], start: usize, end: usize)
    requires
        start <= end <= buffer@.len(),
    ensures
        final(out)@ == old(out)@ + text_row_text(buffer@.subrange(start as int, end as int)),
{
    let mut j: usize = start;
    proof {
        assert(out@ =~= old(out)@ + text_row_text(buffer@.subrange(start as int, j as int)));
    }
    while j < end
        invariant
            start <= j <= end <= buffer@.len(),
            out@ == old(out)@ + text_row_text(buffer@.subrange(start as int, j as int)),
        decreases end - j,
    {
        out.push(glyph(buffer[j]));
        proof {
            let prev = buffer@.subrange(start as int, j as int);
            let next = buffer@.subrange(start as int, j as int + 1);
            assert(text_row_text(next) =~= text_row_text(prev).push(glyph_of(buffer@[j as int])));
            assert(out@ =~= old(out)@ + text_row_text(next));
        }
        j = j + 1;
    }
}

/// Which projection a row belongs to.
#[derive(Clone, Copy, Debug, PartialEq, Eq, Structural)]
pub enum Projection {
    Address,
    Hex,
    Text,
}

/// What row `i` of `projection` reads for `buffer` under `geometry`.
pub open spec fn row_text(projection: Projection, buffer: Seq<u8>, geometry: Geometry, i: int) -> Seq<char> {
    match projection {
        Projection::Address => address_row_text(i, geometry.row_bytes()),
        Projection::Hex => hex_row_text(row_bytes(buffer, i, geometry.row_bytes()), geometry.block_size as int),
        Projection::Text => text_row_text(row_bytes(buffer, i, geometry.row_bytes())),
    }
}

/// `rows` is the whole of `projection` for `buffer` under `geometry`.
pub open spec fn is_projection(rows: Seq<String>, projection: Projection, buffer: Seq<u8>, geometry: Geometry) -> bool {
    &&& rows.len() == row_count(buffer.len() as int, geometry.row_bytes())
    &&& forall|i: int| 0 <= i < rows.len() ==> (#[trigger] rows[i])@ == row_text(projection, buffer, geometry, i)
}

/// The rows of one projection of `buffer`.
pub fn project(projection: Projection, buffer: &[u8], geometry: &Geometry) -> (rows: Vec<String>)
    requires
        geometry.wf(),
    ensures
        is_projection(rows@, projection, buffer@, *geometry),
{
    let per_row = geometry.bytes_per_row();
    let len = buffer.len();
    let count = count_rows(len, geometry);
    let mut rows: Vec<String> = Vec::new();
    let mut i: usize = 0;
    let mut start: usize = 0;
    while i < count
        invariant
            geometry.wf(),
            per_row == geometry.row_bytes(),
            per_row > 0,
            len == buffer@.len(),
            count == row_count(len as int, per_row as int),
            0 <= i <= count,
            i < count ==> start == i * per_row,
            rows@.len() == i,
            forall|k: int| 0 <= k < i ==> (#[trigger] rows@[k])@ == row_text(projection, buffer@, *geometry, k),
        decreases count - i,
    {
        proof {
            rows_tile_buffer(len as int, per_row as int, i as int);
            assert((i + 1) * per_row == i * per_row + per_row) by (nonlinear_arith);
        }
        let end: usize = if len - start < per_row { len } else { start + per_row };
        assert(end == row_end(i as int, per_row as int, len as int));
        let mut row = String::new();
        match projection {
            Projection::Address => {
                push_hex_fixed(&mut row, start, ADDRESS_DIGITS);
            },
            Projection::Hex => {
                push_hex_row(&mut row, buffer, start, end, geometry.block_size);
            },
            Projection::Text => {
                push_text_row(&mut row, buffer, start, end);
            },
        }
        proof {
            assert(row@ =~= row_text(projection, buffer@, *geometry, i as int));
        }
        rows.push(row);
        start = end;
        i = i + 1;
    }
    rows
}

/// The three row-aligned projections of one buffer.
#[derive(Debug, PartialEq, Eq)]
pub struct Views {
    pub address: Vec<String>,
    pub hex: Vec<String>,
    pub text: Vec<String>,
}

impl Views {
    /// The three sequences are the projections of `buffer` under
    /// `geometry`; in particular they have one length.
    pub open spec fn shows(self, buffer: Seq<u8>, geometry: Geometry) -> bool {
        &&& is_projection(self.address@, Projection::Address, buffer, geometry)
        &&& is_projection(self.hex@, Projection::Hex, buffer, geometry)
        &&& is_projection(self.text@, Projection::Text, buffer, geometry)
    }

    /// Builds the three projections of `buffer`.
    pub fn build(buffer: &[u8], geometry: &Geometry) -> (views: Views)
        requires
            geometry.wf(),
        ensures
            views.shows(buffer@, *geometry),
            views.address@.len() == views.hex@.len() == views.text@.len(),
    {
        Views {
            address: project(Projection::Address, buffer, geometry),
            hex: project(Projection::Hex, buffer, geometry),
            text: project(Projection::Text, buffer, geometry),
        }
    }
}

/// The three projections are aligned: they have as many rows as each
/// other, and row `i` of each stands for the same bytes of the buffer, from
/// `row_start` to `row_end`: the address row names the first of them, the
/// hex row renders them and the text row holds one glyph for each.
pub proof fn views_are_aligned(views: Views, buffer: Seq<u8>, geometry: Geometry, i: int)
    requires
        geometry.wf(),
        views.shows(buffer, geometry),
        0 <= i < views.address@.len(),
    ensures
        views.address@.len() == views.hex@.len() == views.text@.len(),
        0 <= row_start(i, geometry.row_bytes()) < row_end(i, geometry.row_bytes(), buffer.len() as int) <= buffer.len(),
        views.address@[i]@ == hex_fixed_text(row_start(i, geometry.row_bytes()), ADDRESS_DIGITS as nat),
        views.hex@[i]@ == hex_row_text(
            buffer.subrange(row_start(i, geometry.row_bytes()), row_end(i, geometry.row_bytes(), buffer.len() as int)),
            geometry.block_size as int,
        ),
        views.text@[i]@ == text_row_text(
            buffer.subrange(row_start(i, geometry.row_bytes()), row_end(i, geometry.row_bytes(), buffer.len() as int)),
        ),
        views.text@[i]@.len() == row_end(i, geometry.row_bytes(), buffer.len() as int) - row_start(
            i,
            geometry.row_bytes(),
        ),
{
    assert(geometry.row_bytes() > 0) by (nonlinear_arith)
        requires
            geometry.block_size > 0,
            geometry.blocks_per_row > 0,
            geometry.row_bytes() == geometry.block_size * geometry.blocks_per_row,
    ;
    rows_tile_buffer(buffer.len() as int, geometry.row_bytes(), i);
    assert(views.address@[i]@ == row_text(Projection::Address, buffer, geometry, i));
    assert(views.hex@[i]@ == row_text(Projection::Hex, buffer, geometry, i));
    assert(views.text@[i]@ == row_text(Projection::Text, buffer, geometry, i));
}

} // verus!
