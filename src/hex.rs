//! Axial and cube coordinates on a hexagonal grid, with `i32` components.

use vstd::prelude::*;
use vstd::std_specs::ops::AddSpec;

verus! {

/// Whether an integer fits in an `i32`.
pub open spec fn fits_i32(v: int) -> bool {
    i32::MIN <= v <= i32::MAX
}

/// A cell of a hexagonal grid in axial coordinates `(q, r)`.
#[derive(Clone, Copy, Debug, PartialEq, Eq, Structural)]
pub struct HexAxial {
    q: i32,
    r: i32,
}

/// A cell of a hexagonal grid in cube coordinates `(q, r, s)`.
#[derive(Clone, Copy, Debug, PartialEq, Eq, Structural)]
pub struct HexCube {
    q: i32,
    r: i32,
    s: i32,
}

impl View for HexAxial {
    type V = (int, int);

    closed spec fn view(&self) -> (int, int) {
        (self.q as int, self.r as int)
    }
}

impl View for HexCube {
    type V = (int, int, int);

    closed spec fn view(&self) -> (int, int, int) {
        (self.q as int, self.r as int, self.s as int)
    }
}

impl HexAxial {
    pub fn new(q: i32, r: i32) -> (h: HexAxial)
        ensures
            h@ == (q as int, r as int),
    {
        HexAxial { q, r }
    }

    pub fn q(&self) -> (v: i32)
        ensures
            v as int == self@.0,
    {
        self.q
    }

    pub fn r(&self) -> (v: i32)
        ensures
            v as int == self@.1,
    {
        self.r
    }

    /// The cube form of this cell: the third coordinate is `-q - r`, so the
    /// three always sum to zero.
    pub fn to_cube(&self) -> (c: HexCube)
        requires
            fits_i32(-self@.0 - self@.1),
        ensures
            c@ == (self@.0, self@.1, -self@.0 - self@.1),
    {
        HexCube { q: self.q, r: self.r, s: (-(self.q as i64) - self.r as i64) as i32 }
    }

    /// Adds `rhs` to this cell in place.
    pub fn add_assign(&mut self, rhs: HexAxial)
        requires
            fits_i32(old(self)@.0 + rhs@.0),
            fits_i32(old(self)@.1 + rhs@.1),
        ensures
            final(self)@ == (old(self)@.0 + rhs@.0, old(self)@.1 + rhs@.1),
    {
        self.q = self.q + rhs.q;
        self.r = self.r + rhs.r;
    }
}

impl core::ops::Add for HexAxial {
    type Output = HexAxial;

    /// The componentwise sum of two cells.
    fn add(self, rhs: HexAxial) -> (h: HexAxial) {
        HexAxial { q: self.q + rhs.q, r: self.r + rhs.r }
    }
}

impl vstd::std_specs::ops::AddSpecImpl for HexAxial {
    open spec fn obeys_add_spec() -> bool {
        true
    }

    open spec fn add_req(self, rhs: HexAxial) -> bool {
        fits_i32(self@.0 + rhs@.0) && fits_i32(self@.1 + rhs@.1)
    }

    closed spec fn add_spec(self, rhs: HexAxial) -> HexAxial {
        HexAxial { q: (self.q + rhs.q) as i32, r: (self.r + rhs.r) as i32 }
    }
}

/// The sum of two cells, when it fits, is their componentwise sum.
pub proof fn lemma_add_view(a: HexAxial, b: HexAxial)
    requires
        fits_i32(a@.0 + b@.0),
        fits_i32(a@.1 + b@.1),
    ensures
        (#[trigger] a.add_spec(b))@ == (a@.0 + b@.0, a@.1 + b@.1),
{
}

impl HexCube {
    pub fn q(&self) -> (v: i32)
        ensures
            v as int == self@.0,
    {
        self.q
    }

    pub fn r(&self) -> (v: i32)
        ensures
            v as int == self@.1,
    {
        self.r
    }

    pub fn s(&self) -> (v: i32)
        ensures
            v as int == self@.2,
    {
        self.s
    }

    /// The axial form of this cell: the cube's `q` and `r`.
    pub fn to_axial(&self) -> (h: HexAxial)
        ensures
            h@ == (self@.0, self@.1),
    {
        HexAxial { q: self.q, r: self.r }
    }
}

} // verus!
