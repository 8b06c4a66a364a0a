use crate::helpers::hex_grid::axial::AxialPos;
use crate::helpers::support::fits_i32;
use vstd::prelude::*;

verus! {

/// A position on a hexagonal grid, in cube coordinates.
///
/// The third coordinate is redundant: a position that stands for a hex has
/// `q + r + s == 0`. It makes distances and rotations easy to write down.
#[derive(Clone, Copy, Debug, Ord, PartialOrd, Eq, PartialEq, Hash, Structural)]
pub struct CubePos {
    pub q: i32,
    pub r: i32,
    pub s: i32,
}

impl From<AxialPos> for CubePos {
    /// Recomputes the third coordinate as `-q - r` (wrapping around where an
    /// `i32` cannot hold it).
    fn from(axial_pos: AxialPos) -> CubePos {
        let zero: i32 = 0;
        CubePos {
            q: axial_pos.q,
            r: axial_pos.r,
            s: zero.wrapping_sub(axial_pos.q).wrapping_sub(axial_pos.r),
        }
    }
}

impl vstd::std_specs::convert::FromSpecImpl<AxialPos> for CubePos {
    open spec fn obeys_from_spec() -> bool {
        true
    }

    open spec fn from_spec(axial_pos: AxialPos) -> CubePos {
        CubePos::spec_from_axial(axial_pos)
    }
}

impl From<CubePos> for AxialPos {
    /// Drops the third coordinate.
    fn from(cube_pos: CubePos) -> AxialPos {
        AxialPos { q: cube_pos.q, r: cube_pos.r }
    }
}

impl vstd::std_specs::convert::FromSpecImpl<CubePos> for AxialPos {
    open spec fn obeys_from_spec() -> bool {
        true
    }

    open spec fn from_spec(cube_pos: CubePos) -> AxialPos {
        cube_pos.spec_to_axial()
    }
}

impl core::ops::Add<CubePos> for CubePos {
    type Output = CubePos;

    fn add(self, rhs: CubePos) -> CubePos {
        CubePos { q: self.q + rhs.q, r: self.r + rhs.r, s: self.s + rhs.s }
    }
}

impl vstd::std_specs::ops::AddSpecImpl<CubePos> for CubePos {
    open spec fn obeys_add_spec() -> bool {
        true
    }

    open spec fn add_req(self, rhs: CubePos) -> bool {
        fits_i32(self.q + rhs.q) && fits_i32(self.r + rhs.r) && fits_i32(self.s + rhs.s)
    }

    open spec fn add_spec(self, rhs: CubePos) -> CubePos {
        CubePos {
            q: (self.q + rhs.q) as i32,
            r: (self.r + rhs.r) as i32,
            s: (self.s + rhs.s) as i32,
        }
    }
}

impl core::ops::Sub<CubePos> for CubePos {
    type Output = CubePos;

    fn sub(self, rhs: CubePos) -> CubePos {
        CubePos { q: self.q - rhs.q, r: self.r - rhs.r, s: self.s - rhs.s }
    }
}

impl vstd::std_specs::ops::SubSpecImpl<CubePos> for CubePos {
    open spec fn obeys_sub_spec() -> bool {
        true
    }

    open spec fn sub_req(self, rhs: CubePos) -> bool {
        fits_i32(self.q - rhs.q) && fits_i32(self.r - rhs.r) && fits_i32(self.s - rhs.s)
    }

    open spec fn sub_spec(self, rhs: CubePos) -> CubePos {
        CubePos {
            q: (self.q - rhs.q) as i32,
            r: (self.r - rhs.r) as i32,
            s: (self.s - rhs.s) as i32,
        }
    }
}

impl core::ops::Mul<CubePos> for i32 {
    type Output = CubePos;

    fn mul(self, rhs: CubePos) -> CubePos {
        CubePos { q: self * rhs.q, r: self * rhs.r, s: self * rhs.s }
    }
}

impl vstd::std_specs::ops::MulSpecImpl<CubePos> for i32 {
    open spec fn obeys_mul_spec() -> bool {
        true
    }

    open spec fn mul_req(self, rhs: CubePos) -> bool {
        fits_i32(self * rhs.q) && fits_i32(self * rhs.r) && fits_i32(self * rhs.s)
    }

    open spec fn mul_spec(self, rhs: CubePos) -> CubePos {
        CubePos {
            q: (self * rhs.q) as i32,
            r: (self * rhs.r) as i32,
            s: (self * rhs.s) as i32,
        }
    }
}

/// Absolute value of an `i32` other than `i32::MIN`.
fn abs_i32(v: i32) -> (a: i32)
    requires
        v != i32::MIN,
    ensures
        a == vstd::math::abs(v as int),
{
    if v < 0 {
        -v
    } else {
        v
    }
}

impl CubePos {
    pub fn new(q: i32, r: i32, s: i32) -> (pos: CubePos)
        ensures
            pos == (CubePos { q, r, s }),
    {
        CubePos { q, r, s }
    }

    /// Whether the three coordinates sum to zero, as those of a hex do.
    pub open spec fn is_hex(self) -> bool {
        self.q + self.r + self.s == 0
    }

    /// The cube position with the same `q` and `r`, and `s` recomputed as
    /// `-q - r` modulo 2^32.
    pub open spec fn spec_from_axial(axial_pos: AxialPos) -> CubePos {
        CubePos {
            q: axial_pos.q,
            r: axial_pos.r,
            s: vstd::wrapping::i32_specs::wrapping_sub(
                vstd::wrapping::i32_specs::wrapping_sub(0i32, axial_pos.q),
                axial_pos.r,
            ),
        }
    }

    /// The axial position with the same `q` and `r`.
    pub open spec fn spec_to_axial(self) -> AxialPos {
        AxialPos { q: self.q, r: self.r }
    }

    /// The greatest absolute value among the three coordinates.
    pub open spec fn spec_magnitude(self) -> nat {
        let q = vstd::math::abs(self.q as int);
        let r = vstd::math::abs(self.r as int);
        let s = vstd::math::abs(self.s as int);
        if q >= r && q >= s {
            q
        } else if r >= s {
            r
        } else {
            s
        }
    }

    /// The magnitude of a cube position is its distance away from `[0, 0, 0]`
    /// in the cube grid: the greatest absolute value among its coordinates.
    pub fn magnitude(&self) -> (m: i32)
        requires
            i32::MIN < self.q,
            i32::MIN < self.r,
            i32::MIN < self.s,
        ensures
            m == self.spec_magnitude(),
    {
        let q = abs_i32(self.q);
        let r = abs_i32(self.r);
        let s = abs_i32(self.s);
        if q >= r && q >= s {
            q
        } else if r >= s {
            r
        } else {
            s
        }
    }

    /// Returns the distance between `self` and `other` on the cube grid.
    pub fn distance_from(&self, other: &CubePos) -> (d: i32)
        requires
            i32::MIN < self.q - other.q <= i32::MAX,
            i32::MIN < self.r - other.r <= i32::MAX,
            i32::MIN < self.s - other.s <= i32::MAX,
        ensures
            d == (CubePos {
                q: (self.q - other.q) as i32,
                r: (self.r - other.r) as i32,
                s: (self.s - other.s) as i32,
            }).spec_magnitude(),
    {
        let diff = *self - *other;
        diff.magnitude()
    }
}

/// Going from axial to cube coordinates and back gives the position started
/// from.
pub proof fn lemma_axial_cube_axial(axial_pos: AxialPos)
    ensures
        CubePos::spec_from_axial(axial_pos).spec_to_axial() == axial_pos,
{
}

/// Going from the cube coordinates of a hex to axial coordinates and back
/// gives the position started from.
pub proof fn lemma_cube_axial_cube(cube_pos: CubePos)
    requires
        cube_pos.is_hex(),
    ensures
        CubePos::spec_from_axial(cube_pos.spec_to_axial()) == cube_pos,
{
}

/// Where an `i32` can hold `-q - r`, the cube position made from an axial
/// position stands for a hex, and its magnitude is the number of steps from
/// the origin.
pub proof fn lemma_cube_of_axial(axial_pos: AxialPos)
    requires
        fits_i32(-axial_pos.q - axial_pos.r),
    ensures
        CubePos::spec_from_axial(axial_pos).is_hex(),
        CubePos::spec_from_axial(axial_pos).spec_magnitude() == axial_pos.spec_distance(
            AxialPos { q: 0, r: 0 },
        ),
{
}

} // verus!
