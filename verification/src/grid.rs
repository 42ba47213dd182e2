use vstd::prelude::*;

verus! {

/// Derives the simulation grid size from the available display area and the
/// pixel-to-cell scale factor: the canvas and both render targets are sized
/// to `(avail_width / scale, avail_height / scale)`, so the two always agree.
pub fn derive_grid_size(avail_width: u32, avail_height: u32, scale: u32) -> (dims: (u32, u32))
    requires
        scale > 0,
    ensures
        dims.0 == avail_width as int / scale as int,
        dims.1 == avail_height as int / scale as int,
        dims.0 * scale <= avail_width,
        dims.1 * scale <= avail_height,
{
    proof {
        vstd::arithmetic::div_mod::lemma_fundamental_div_mod(avail_width as int, scale as int);
        vstd::arithmetic::div_mod::lemma_mod_bound(avail_width as int, scale as int);
        vstd::arithmetic::div_mod::lemma_fundamental_div_mod(avail_height as int, scale as int);
        vstd::arithmetic::div_mod::lemma_mod_bound(avail_height as int, scale as int);
        assert((avail_width as int / scale as int) * scale as int == scale as int * (
        avail_width as int / scale as int)) by (nonlinear_arith);
        assert((avail_height as int / scale as int) * scale as int == scale as int * (
        avail_height as int / scale as int)) by (nonlinear_arith);
    }
    (avail_width / scale, avail_height / scale)
}

/// A point in simulation-grid units, held exactly as a pair of rationals
/// over a common denominator: the value is `(x_num / denom, y_num / denom)`.
#[derive(Clone, Copy, Debug, PartialEq, Eq, Structural)]
pub struct GridPoint {
    pub x_num: i64,
    pub y_num: i64,
    pub denom: u32,
}

/// Maps a pointer position in canvas pixels to simulation-grid units.
///
/// Both coordinates are divided by the scale factor, and the y axis is
/// flipped, because canvas y grows downward while the grid's y grows upward:
/// the value of the result is `(px / scale, grid_height - py / scale)`.
pub fn map_pointer(px: i32, py: i32, grid_height: u32, scale: u32) -> (p: GridPoint)
    requires
        scale > 0,
        grid_height * scale <= u32::MAX,
    ensures
        p.denom == scale,
        p.x_num == px,
        p.y_num == grid_height * scale - py,
{
    GridPoint {
        x_num: px as i64,
        y_num: grid_height as i64 * scale as i64 - py as i64,
        denom: scale,
    }
}

} // verus!
