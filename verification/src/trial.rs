//! One trial: a fixed-point point in the unit square and its inside/outside
//! classification against the unit quarter circle.

use vstd::prelude::*;

verus! {

/// A coordinate value `c` stands for the real number `c / SCALE`, so the
/// representable coordinates form a grid over `[0, 1]`: `0` is `0.0` and
/// `SCALE` is exactly `1.0`. Draws land on `[0, 1)`, that is in
/// `0 .. SCALE`; the classification also accepts the closed boundary.
pub const SCALE: u32 = 65536;

/// `SCALE * SCALE`, the squared radius of the quarter circle in grid units.
pub const SCALE_SQ: u64 = 65536 * 65536;

/// The point `(x / SCALE, y / SCALE)` lies inside the closed unit quarter
/// circle: `x^2 + y^2 <= SCALE^2`, the boundary counting as inside.
pub open spec fn inside_spec(x: int, y: int) -> bool {
    x * x + y * y <= SCALE_SQ
}

/// Classify one trial. The boundary is inclusive: a point with
/// `x^2 + y^2` exactly `SCALE^2` (for example `x = SCALE`, `y = 0`,
/// standing for `(1.0, 0.0)`) counts as inside.
pub fn classify(x: u32, y: u32) -> (inside: bool)
    requires
        x <= SCALE,
        y <= SCALE,
    ensures
        inside == inside_spec(x as int, y as int),
{
    proof {
        assert((x as u64) * (x as u64) <= 65536u64 * 65536u64 && (y as u64) * (y as u64)
            <= 65536u64 * 65536u64) by (nonlinear_arith)
            requires
                x <= 65536,
                y <= 65536,
        ;
    }
    let xs: u64 = (x as u64) * (x as u64);
    let ys: u64 = (y as u64) * (y as u64);
    xs + ys <= SCALE_SQ
}

/// Reduce one raw word of the pseudo-random stream to a grid coordinate,
/// uniform over `[0, SCALE)` whenever the word is uniform over the `u64`s.
pub fn coord_of_raw(raw: u64) -> (c: u32)
    ensures
        c == raw as int % (SCALE as int),
        c < SCALE,
{
    (raw % (SCALE as u64)) as u32
}

} // verus!
