//! Terminal dimensions and the clamping rule applied to every requested size.

use vstd::prelude::*;

verus! {

/// Fewest terminal columns a PTY is ever given.
pub const MIN_PTY_COLS: u16 = 10;

/// Most terminal columns a PTY is ever given.
pub const MAX_PTY_COLS: u16 = 500;

/// Fewest terminal rows a PTY is ever given.
pub const MIN_PTY_ROWS: u16 = 5;

/// Most terminal rows a PTY is ever given.
pub const MAX_PTY_ROWS: u16 = 200;

/// Column count a session starts with when no PTY allocation preceded the
/// shell request.
pub const DEFAULT_PTY_COLS: u16 = 80;

/// Row count a session starts with when no PTY allocation preceded the
/// shell request.
pub const DEFAULT_PTY_ROWS: u16 = 24;

/// `v` forced into the closed interval `[lo, hi]`.
pub open spec fn clamp_u16(v: u16, lo: u16, hi: u16) -> u16 {
    if v < lo {
        lo
    } else if v > hi {
        hi
    } else {
        v
    }
}

/// The column count actually applied for a requested width: the request is
/// reduced to 16 bits and clamped into `[MIN_PTY_COLS, MAX_PTY_COLS]`.
pub open spec fn spec_clamp_cols(col_width: u32) -> u16 {
    clamp_u16((col_width % 0x10000) as u16, MIN_PTY_COLS, MAX_PTY_COLS)
}

/// The row count actually applied for a requested height: the request is
/// reduced to 16 bits and clamped into `[MIN_PTY_ROWS, MAX_PTY_ROWS]`.
pub open spec fn spec_clamp_rows(row_height: u32) -> u16 {
    clamp_u16((row_height % 0x10000) as u16, MIN_PTY_ROWS, MAX_PTY_ROWS)
}

} // verus!
