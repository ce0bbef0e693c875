//! Axial and cube hex-grid coordinates over any signed integer component.

use vstd::prelude::*;
use vstd::std_specs::ops::AddSpec;

verus! {

/// A signed integer type usable as a hex-grid coordinate component.
pub trait HexNum: Copy + Sized {
    /// The mathematical value of a component.
    spec fn value(self) -> int;

    /// Whether `v` is representable in this type.
    spec fn in_range(v: int) -> bool;

    /// The sum of two components, where it is representable.
    spec fn spec_plus(self, rhs: Self) -> Self;

    /// Where the sum is representable, `spec_plus` has the sum's value.
    proof fn lemma_plus_value(a: Self, b: Self)
        requires
            Self::in_range(a.value() + b.value()),
        ensures
            a.spec_plus(b).value() == a.value() + b.value(),
    ;

    /// The sum of two components.
    fn plus(self, rhs: Self) -> (r: Self)
        requires
            Self::in_range(self.value() + rhs.value()),
        ensures
            r == self.spec_plus(rhs),
            r.value() == self.value() + rhs.value(),
    ;

    /// The negated sum `-self - rhs` of two components.
    fn neg_minus(self, rhs: Self) -> (r: Self)
        requires
            Self::in_range(-self.value() - rhs.value()),
        ensures
            r.value() == -self.value() - rhs.value(),
    ;
}

impl HexNum for i8 {
    open spec fn value(self) -> int {
        self as int
    }

    open spec fn in_range(v: int) -> bool {
        i8::MIN <= v <= i8::MAX
    }

    open spec fn spec_plus(self, rhs: i8) -> i8 {
        (self + rhs) as i8
    }

    proof fn lemma_plus_value(a: i8, b: i8) {
    }

    fn plus(self, rhs: i8) -> (r: i8) {
        self + rhs
    }

    fn neg_minus(self, rhs: i8) -> (r: i8) {
        (-(self as i16) - rhs as i16) as i8
    }
}

impl HexNum for i16 {
    open spec fn value(self) -> int {
        self as int
    }

    open spec fn in_range(v: int) -> bool {
        i16::MIN <= v <= i16::MAX
    }

    open spec fn spec_plus(self, rhs: i16) -> i16 {
        (self + rhs) as i16
    }

    proof fn lemma_plus_value(a: i16, b: i16) {
    }

    fn plus(self, rhs: i16) -> (r: i16) {
        self + rhs
    }

    fn neg_minus(self, rhs: i16) -> (r: i16) {
        (-(self as i32) - rhs as i32) as i16
    }
}

impl HexNum for i32 {
    open spec fn value(self) -> int {
        self as int
    }

    open spec fn in_range(v: int) -> bool {
        i32::MIN <= v <= i32::MAX
    }

    open spec fn spec_plus(self, rhs: i32) -> i32 {
        (self + rhs) as i32
    }

    proof fn lemma_plus_value(a: i32, b: i32) {
    }

    fn plus(self, rhs: i32) -> (r: i32) {
        self + rhs
    }

    fn neg_minus(self, rhs: i32) -> (r: i32) {
        (-(self as i64) - rhs as i64) as i32
    }
}

impl HexNum for i64 {
    open spec fn value(self) -> int {
        self as int
    }

    open spec fn in_range(v: int) -> bool {
        i64::MIN <= v <= i64::MAX
    }

    open spec fn spec_plus(self, rhs: i64) -> i64 {
        (self + rhs) as i64
    }

    proof fn lemma_plus_value(a: i64, b: i64) {
    }

    fn plus(self, rhs: i64) -> (r: i64) {
        self + rhs
    }

    fn neg_minus(self, rhs: i64) -> (r: i64) {
        (-(self as i128) - rhs as i128) as i64
    }
}

impl HexNum for isize {
    open spec fn value(self) -> int {
        self as int
    }

    open spec fn in_range(v: int) -> bool {
        isize::MIN <= v <= isize::MAX
    }

    open spec fn spec_plus(self, rhs: isize) -> isize {
        (self + rhs) as isize
    }

    proof fn lemma_plus_value(a: isize, b: isize) {
    }

    fn plus(self, rhs: isize) -> (r: isize) {
        self + rhs
    }

    fn neg_minus(self, rhs: isize) -> (r: isize) {
        (-(self as i128) - rhs as i128) as isize
    }
}

/// A cell of a hexagonal grid in axial coordinates `(q, r)`.
pub struct Axial<T: HexNum> {
    q: T,
    r: T,
}

/// A cell of a hexagonal grid in cube coordinates `(q, r, s)`.
pub struct Cube<T: HexNum> {
    q: T,
    r: T,
    s: T,
}

impl<T: HexNum> View for Axial<T> {
    type V = (int, int);

    closed spec fn view(&self) -> (int, int) {
        (self.q.value(), self.r.value())
    }
}

impl<T: HexNum> View for Cube<T> {
    type V = (int, int, int);

    closed spec fn view(&self) -> (int, int, int) {
        (self.q.value(), self.r.value(), self.s.value())
    }
}

impl<T: HexNum> Axial<T> {
    pub fn new(q: T, r: T) -> (a: Axial<T>)
        ensures
            a@ == (q.value(), r.value()),
    {
        Axial { q, r }
    }

    pub fn q(&self) -> (v: T)
        ensures
            v.value() == self@.0,
    {
        self.q
    }

    pub fn r(&self) -> (v: T)
        ensures
            v.value() == self@.1,
    {
        self.r
    }

    /// The cube form of this cell: the third coordinate is `-q - r`.
    pub fn to_cube(&self) -> (c: Cube<T>)
        requires
            T::in_range(-self@.0 - self@.1),
        ensures
            c@ == (self@.0, self@.1, -self@.0 - self@.1),
    {
        Cube { q: self.q, r: self.r, s: self.q.neg_minus(self.r) }
    }

    /// Adds `rhs` to this cell in place.
    pub fn add_assign(&mut self, rhs: Axial<T>)
        requires
            T::in_range(old(self)@.0 + rhs@.0),
            T::in_range(old(self)@.1 + rhs@.1),
        ensures
            final(self)@ == (old(self)@.0 + rhs@.0, old(self)@.1 + rhs@.1),
    {
        self.q = self.q.plus(rhs.q);
        self.r = self.r.plus(rhs.r);
    }
}

impl<T: HexNum> core::ops::Add for Axial<T> {
    type Output = Axial<T>;

    /// The componentwise sum of two cells.
    fn add(self, rhs: Axial<T>) -> (a: Axial<T>) {
        Axial { q: self.q.plus(rhs.q), r: self.r.plus(rhs.r) }
    }
}

impl<T: HexNum> vstd::std_specs::ops::AddSpecImpl for Axial<T> {
    open spec fn obeys_add_spec() -> bool {
        true
    }

    open spec fn add_req(self, rhs: Axial<T>) -> bool {
        T::in_range(self@.0 + rhs@.0) && T::in_range(self@.1 + rhs@.1)
    }

    closed spec fn add_spec(self, rhs: Axial<T>) -> Axial<T> {
        Axial { q: self.q.spec_plus(rhs.q), r: self.r.spec_plus(rhs.r) }
    }
}

/// The sum of two cells, when it fits, is their componentwise sum.
pub proof fn lemma_axial_add_view<T: HexNum>(a: Axial<T>, b: Axial<T>)
    requires
        T::in_range(a@.0 + b@.0),
        T::in_range(a@.1 + b@.1),
    ensures
        a.add_spec(b)@ == (a@.0 + b@.0, a@.1 + b@.1),
{
    T::lemma_plus_value(a.q, b.q);
    T::lemma_plus_value(a.r, b.r);
}

impl<T: HexNum> Cube<T> {
    pub fn q(&self) -> (v: T)
        ensures
            v.value() == self@.0,
    {
        self.q
    }

    pub fn r(&self) -> (v: T)
        ensures
            v.value() == self@.1,
    {
        self.r
    }

    pub fn s(&self) -> (v: T)
        ensures
            v.value() == self@.2,
    {
        self.s
    }
}

} // verus!
