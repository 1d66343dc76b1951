//! Mapping between abstract court units, in which a remote physics authority
//! publishes positions, and the terminal rows of this client.
use vstd::prelude::*;

verus! {

/// Width of the court, in thousandths of a court unit.
pub const COURT_WIDTH: i32 = 40_000;

/// Height of the court, in thousandths of a court unit.
pub const COURT_HEIGHT: i32 = 12_000;

/// Height of a paddle, in thousandths of a court unit.
pub const COURT_PADDLE_HEIGHT: i32 = 3_000;

/// How far the top of a paddle travels, in thousandths of a court unit.
pub const COURT_TRAVEL: i32 = COURT_HEIGHT - COURT_PADDLE_HEIGHT;

/// The paddle row for court position `y` when the paddle travels over rows
/// `0..=max_row`: `y / COURT_TRAVEL * max_row`, truncated and clamped.
pub open spec fn spec_court_to_row(y: int, max_row: int) -> int {
    if y <= 0 {
        0
    } else if y * max_row / (COURT_TRAVEL as int) < max_row {
        y * max_row / (COURT_TRAVEL as int)
    } else {
        max_row
    }
}

/// The court position of paddle row `row` when the paddle travels over rows
/// `0..=max_row`: `row / max_row * COURT_TRAVEL`, truncated, with a travel of
/// no rows treated as one.
pub open spec fn spec_row_to_court(row: int, max_row: int) -> int {
    row * (COURT_TRAVEL as int) / vstd::math::max(max_row, 1)
}

/// The cell, of `0..=cells`, at court position `v` on an axis `extent` long:
/// `v / extent * cells`, truncated and clamped.
pub open spec fn spec_to_cells(v: int, extent: int, cells: int) -> int {
    if v <= 0 {
        0
    } else if v * cells / extent < cells {
        v * cells / extent
    } else {
        cells
    }
}

/// Court position to terminal cell.
pub fn to_cells(v: i32, extent: i32, cells: u16) -> (r: u16)
    requires
        extent > 0,
    ensures
        r == spec_to_cells(v as int, extent as int, cells as int),
        r <= cells,
{
    if v <= 0 {
        0
    } else {
        assert((v as u64) * (cells as u64) <= 0x7fff_ffff * 65535) by (nonlinear_arith)
            requires 0 < v <= 0x7fff_ffff, cells <= 65535;
        let scaled: u64 = (v as u64) * (cells as u64) / (extent as u64);
        if scaled < cells as u64 {
            scaled as u16
        } else {
            cells
        }
    }
}

/// Court position to paddle row.
pub fn court_to_row(y: i32, max_row: u16) -> (r: u16)
    ensures
        r == spec_court_to_row(y as int, max_row as int),
        r <= max_row,
{
    if y <= 0 {
        0
    } else {
        assert((y as u64) * (max_row as u64) <= 0x7fff_ffff * 65535) by (nonlinear_arith)
            requires 0 < y <= 0x7fff_ffff, max_row <= 65535;
        let scaled: u64 = (y as u64) * (max_row as u64) / (COURT_TRAVEL as u64);
        if scaled < max_row as u64 {
            scaled as u16
        } else {
            max_row
        }
    }
}

/// Paddle row to court position.
pub fn row_to_court(row: u16, max_row: u16) -> (r: i32)
    ensures
        r == spec_row_to_court(row as int, max_row as int),
        r >= 0,
        row <= max_row ==> r <= COURT_TRAVEL,
{
    let travel: u64 = if max_row > 0 { max_row as u64 } else { 1 };
    assert((row as u64) * 9000 <= 65535 * 9000) by (nonlinear_arith)
        requires row <= 65535;
    let p: u64 = (row as u64) * (COURT_TRAVEL as u64);
    proof {
        if row <= max_row {
            assert(p / travel <= 9000) by (nonlinear_arith)
                requires p == row * 9000, row <= travel, travel >= 1;
        }
    }
    (p / travel) as i32
}

/// A court position taken to a paddle row and back comes out no greater than
/// it went in, and short of it by less than one row's worth of court units;
/// where the row is exact (`y * max_row` a multiple of the travel, as at both
/// ends of the travel and, for an even `max_row`, its midpoint) it comes back
/// unchanged.
pub proof fn lemma_court_row_round_trip(y: int, max_row: int)
    requires
        0 <= y <= COURT_TRAVEL,
        max_row >= 1,
    ensures
        0 <= y - spec_row_to_court(spec_court_to_row(y, max_row), max_row),
        (y - spec_row_to_court(spec_court_to_row(y, max_row), max_row)) * max_row
            < COURT_TRAVEL + max_row,
        (y * max_row) % (COURT_TRAVEL as int) == 0 ==> spec_row_to_court(
            spec_court_to_row(y, max_row),
            max_row,
        ) == y,
{
    let tr = COURT_TRAVEL as int;
    assert(tr == 9000);
    let t = spec_court_to_row(y, max_row);
    let p = spec_row_to_court(t, max_row);
    assert(vstd::math::max(max_row, 1) == max_row);
    assert(y * max_row / tr <= max_row) by (nonlinear_arith)
        requires 0 <= y <= tr, max_row >= 1, tr == 9000;
    assert(t == y * max_row / tr) by {
        if y <= 0 {
            assert(y == 0);
            assert(y * max_row == 0) by (nonlinear_arith)
                requires y == 0;
        }
    }
    assert(t * tr <= y * max_row && y * max_row < t * tr + tr) by (nonlinear_arith)
        requires t == y * max_row / tr, tr == 9000, y >= 0, max_row >= 1;
    assert(p * max_row <= t * tr && t * tr < p * max_row + max_row) by (nonlinear_arith)
        requires p == t * tr / max_row, max_row >= 1, t >= 0, tr == 9000;
    assert((y - p) * max_row == y * max_row - p * max_row) by (nonlinear_arith);
    assert(y - p >= 0) by (nonlinear_arith)
        requires (y - p) * max_row >= 0, max_row >= 1;
    if (y * max_row) % tr == 0 {
        assert(t * tr == y * max_row) by (nonlinear_arith)
            requires t == y * max_row / tr, (y * max_row) % tr == 0, tr == 9000;
        assert(p == y) by (nonlinear_arith)
            requires p == t * tr / max_row, t * tr == y * max_row, max_row >= 1;
    }
}

} // verus!
