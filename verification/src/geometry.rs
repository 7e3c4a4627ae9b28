//! Row layout of the fixed-width projections, derived from the viewport.

use vstd::prelude::*;

verus! {

/// Columns taken by the address pane, its border included.
pub const ADDRESS_COLUMN_WIDTH: u16 = 17;

/// Bytes per visual group when nothing else is asked for.
pub const DEFAULT_BLOCK_SIZE: usize = 8;

/// Columns that one block takes in the hex pane: two digits and a space
/// for each byte, and one separating column.
pub open spec fn hex_block_width(block_size: int) -> int {
    3 * block_size + 1
}

/// Columns that one block takes in the text or assembly pane at its
/// narrowest: a glyph and a space for each byte, and one separating column.
pub open spec fn info_block_width(block_size: int) -> int {
    2 * block_size + 1
}

/// Columns that a row of `blocks` blocks takes over all panes.
pub open spec fn row_width(block_size: int, blocks: int) -> int {
    ADDRESS_COLUMN_WIDTH as int + blocks * (hex_block_width(block_size) + info_block_width(block_size))
}

/// A row of `blocks` blocks fits a viewport of `viewport_width` columns.
pub open spec fn fits(viewport_width: int, block_size: int, blocks: int) -> bool {
    row_width(block_size, blocks) <= viewport_width
}

/// The number of blocks per row for a viewport: the largest count whose
/// row fits, and one where not even a single block fits.
pub open spec fn blocks_per_row_for(viewport_width: int, block_size: int) -> int {
    if fits(viewport_width, block_size, 1) {
        (viewport_width - ADDRESS_COLUMN_WIDTH as int) / (hex_block_width(block_size) + info_block_width(block_size))
    } else {
        1
    }
}

/// `blocks_per_row_for` picks the largest count that fits: its own row
/// fits and that of one block more does not; and where no count fits at
/// all it is one.
pub proof fn blocks_per_row_is_largest_fit(viewport_width: int, block_size: int)
    requires
        block_size >= 0,
    ensures
        blocks_per_row_for(viewport_width, block_size) >= 1,
        fits(viewport_width, block_size, 1) ==> fits(
            viewport_width,
            block_size,
            blocks_per_row_for(viewport_width, block_size),
        ),
        !fits(viewport_width, block_size, blocks_per_row_for(viewport_width, block_size) + 1),
        forall|n: int|
            n > blocks_per_row_for(viewport_width, block_size) ==> !#[trigger] fits(viewport_width, block_size, n),
{
    let unit = hex_block_width(block_size) + info_block_width(block_size);
    let room = viewport_width - ADDRESS_COLUMN_WIDTH as int;
    let best = blocks_per_row_for(viewport_width, block_size);
    assert(unit >= 2);
    if fits(viewport_width, block_size, 1) {
        assert(1 * unit == unit);
        assert(room >= unit);
        vstd::arithmetic::div_mod::lemma_fundamental_div_mod(room, unit);
        vstd::arithmetic::div_mod::lemma_mod_bound(room, unit);
        assert(best == room / unit);
        assert(best >= 1) by (nonlinear_arith)
            requires
                room == unit * best + room % unit,
                0 <= room % unit < unit,
                room >= unit,
                unit >= 2,
        ;
        assert(best * unit <= room) by (nonlinear_arith)
            requires
                room == unit * best + room % unit,
                0 <= room % unit,
        ;
        assert forall|n: int| n > best implies !#[trigger] fits(viewport_width, block_size, n) by {
            assert(n * unit > room) by (nonlinear_arith)
                requires
                    room == unit * best + room % unit,
                    room % unit < unit,
                    n >= best + 1,
                    unit >= 2,
            ;
        }
    } else {
        assert(1 * unit == unit);
        assert forall|n: int| n > best implies !#[trigger] fits(viewport_width, block_size, n) by {
            assert(n * unit >= unit) by (nonlinear_arith)
                requires
                    n >= 1,
                    unit >= 2,
            ;
        }
    }
    assert(!fits(viewport_width, block_size, best + 1));
}

/// Row layout of the address, hex and text projections.
#[derive(Clone, Copy, Debug, PartialEq, Eq, Structural)]
pub struct Geometry {
    pub block_size: usize,
    pub blocks_per_row: usize,
}

impl Geometry {
    /// A row holds at least one byte, and its byte count is a machine
    /// integer.
    pub open spec fn wf(self) -> bool {
        &&& self.block_size > 0
        &&& self.blocks_per_row > 0
        &&& self.block_size * self.blocks_per_row <= usize::MAX
    }

    /// Bytes covered by one full row.
    pub open spec fn row_bytes(self) -> int {
        self.block_size * self.blocks_per_row
    }

    /// The number of blocks per row for a viewport of `viewport_width`
    /// columns and blocks of `block_size` bytes.
    pub fn compute(viewport_width: u16, block_size: usize) -> (blocks_per_row: usize)
        ensures
            blocks_per_row == blocks_per_row_for(viewport_width as int, block_size as int),
            blocks_per_row >= 1,
            fits(viewport_width as int, block_size as int, 1) ==> fits(
                viewport_width as int,
                block_size as int,
                blocks_per_row as int,
            ),
            forall|n: int| n > blocks_per_row ==> !#[trigger] fits(viewport_width as int, block_size as int, n),
            block_size * blocks_per_row <= usize::MAX,
    {
        proof {
            blocks_per_row_is_largest_fit(viewport_width as int, block_size as int);
        }
        if block_size >= 0x10000 || viewport_width < ADDRESS_COLUMN_WIDTH {
            assert(block_size * 1 == block_size);
            return 1;
        }
        let unit: usize = 5 * block_size + 2;
        let room: usize = (viewport_width - ADDRESS_COLUMN_WIDTH) as usize;
        assert(1 * (unit as int) == unit);
        if room < unit {
            assert(block_size * 1 == block_size);
            return 1;
        }
        let blocks: usize = room / unit;
        proof {
            let b = blocks as int;
            let u = unit as int;
            let r = room as int;
            vstd::arithmetic::div_mod::lemma_fundamental_div_mod(r, u);
            assert(b * block_size <= 0xFFFF) by (nonlinear_arith)
                requires
                    r == u * b + r % u,
                    0 <= r % u,
                    r <= 0xFFFF,
                    u == 5 * block_size + 2,
                    b >= 0,
                    block_size >= 0,
            ;
            assert(block_size * blocks == b * block_size) by (nonlinear_arith)
                requires
                    b == blocks,
            ;
        }
        blocks
    }

    /// The layout for blocks of `block_size` bytes in a viewport of
    /// `viewport_width` columns.
    pub fn for_width(viewport_width: u16, block_size: usize) -> (g: Geometry)
        requires
            block_size > 0,
        ensures
            g.wf(),
            g.block_size == block_size,
            g.blocks_per_row == blocks_per_row_for(viewport_width as int, block_size as int),
    {
        Geometry { block_size, blocks_per_row: Geometry::compute(viewport_width, block_size) }
    }

    /// Bytes covered by one full row.
    pub fn bytes_per_row(&self) -> (n: usize)
        requires
            self.wf(),
        ensures
            n == self.row_bytes(),
            n > 0,
    {
        assert(self.block_size * self.blocks_per_row > 0) by (nonlinear_arith)
            requires
                self.block_size > 0,
                self.blocks_per_row > 0,
        ;
        self.block_size * self.blocks_per_row
    }
}

} // verus!
