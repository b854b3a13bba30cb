//! Plain integer screen geometry. Coordinates are fixed-point: `SUBPIXEL`
//! units make one pixel, so fractional spacing derived from proportional
//! scales stays exact and deterministic.

use vstd::prelude::*;

verus! {

/// Number of coordinate units per pixel.
pub const SUBPIXEL: i64 = 1000;

/// A screen position in fixed-point units.
#[derive(Clone, Copy, Debug, PartialEq, Eq, Structural)]
pub struct Point {
    pub x: i64,
    pub y: i64,
}

/// A width/height pair in fixed-point units.
#[derive(Clone, Copy, Debug, PartialEq, Eq, Structural)]
pub struct Size {
    pub width: i64,
    pub height: i64,
}

/// An axis-aligned rectangle: origin plus size, in fixed-point units.
#[derive(Clone, Copy, Debug, PartialEq, Eq, Structural)]
pub struct Rect {
    pub x: i64,
    pub y: i64,
    pub width: i64,
    pub height: i64,
}

/// Whether the neck axis runs along the wide or the narrow dimension of the
/// drawing surface.
#[derive(Clone, Copy, Debug, PartialEq, Eq, Structural)]
pub enum Orientation {
    Horizontal,
    Vertical,
}

/// The orientation chosen for a surface of the given size: a surface at
/// least as wide as it is tall — a square included — selects `Horizontal`;
/// only a strictly taller one selects `Vertical`.
pub open spec fn spec_orientation(size: Size) -> Orientation {
    if size.width >= size.height {
        Orientation::Horizontal
    } else {
        Orientation::Vertical
    }
}

/// Swap the coordinates of a point when the orientation is vertical.
pub open spec fn spec_transform_point(o: Orientation, p: Point) -> Point {
    match o {
        Orientation::Horizontal => p,
        Orientation::Vertical => Point { x: p.y, y: p.x },
    }
}

/// Swap the dimensions of a size when the orientation is vertical.
pub open spec fn spec_transform_size(o: Orientation, s: Size) -> Size {
    match o {
        Orientation::Horizontal => s,
        Orientation::Vertical => Size { width: s.height, height: s.width },
    }
}

impl Orientation {
    /// Decide the orientation from the surface size: the neck follows the
    /// longer dimension, and a square resolves to `Horizontal`.
    pub fn of_size(size: Size) -> (r: Orientation)
        ensures
            r == spec_orientation(size),
            (r == Orientation::Horizontal) <==> size.width >= size.height,
    {
        if size.width >= size.height {
            Orientation::Horizontal
        } else {
            Orientation::Vertical
        }
    }

    /// Map a point from logical (neck-axis, string-axis) coordinates to
    /// screen coordinates.
    pub fn transform_point(&self, value: Point) -> (r: Point)
        ensures
            r == spec_transform_point(*self, value),
    {
        match self {
            Self::Horizontal => value,
            Self::Vertical => Point { x: value.y, y: value.x },
        }
    }

    /// Map a size from logical to screen coordinates.
    pub fn transform_size(&self, value: Size) -> (r: Size)
        ensures
            r == spec_transform_size(*self, value),
    {
        match self {
            Self::Horizontal => value,
            Self::Vertical => Size { width: value.height, height: value.width },
        }
    }
}

/// Division that truncates toward zero, as machine division does, for a
/// positive divisor.
pub open spec fn div_trunc(a: int, b: int) -> int {
    if a >= 0 {
        a / b
    } else {
        -((-a) / b)
    }
}

/// Truncated division by a positive divisor never grows in magnitude.
pub proof fn lemma_div_trunc_bound(a: int, b: int)
    requires
        b >= 1,
    ensures
        a >= 0 ==> 0 <= div_trunc(a, b) <= a,
        a < 0 ==> a <= div_trunc(a, b) <= 0,
{
    if a >= 0 {
        lemma_div_bound(a as nat, b as nat);
    } else {
        lemma_div_bound((-a) as nat, b as nat);
    }
}

/// Truncating division on fixed-point values.
pub fn div_t(a: i64, b: i64) -> (r: i64)
    requires
        b >= 1,
        a > i64::MIN,
    ensures
        r == div_trunc(a as int, b as int),
        a >= 0 ==> 0 <= r <= a,
        a < 0 ==> a <= r <= 0,
{
    if a >= 0 {
        let q: u64 = (a as u64) / (b as u64);
        proof {
            lemma_div_bound(a as nat, b as nat);
        }
        q as i64
    } else {
        let q: u64 = ((-a) as u64) / (b as u64);
        proof {
            lemma_div_bound((-a) as nat, b as nat);
        }
        -(q as i64)
    }
}

/// Dividing a natural number by a positive one never increases it.
proof fn lemma_div_bound(a: nat, b: nat)
    requires
        b >= 1,
    ensures
        0 <= a / b <= a,
{
    assert(a / b <= a) by (nonlinear_arith)
        requires b >= 1;
}

} // verus!
