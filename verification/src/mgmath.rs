//! Fixed-size mathematical vectors: `S` components of a numeric type `T`,
//! stored inline, with positional and named component access.

use vstd::prelude::*;

verus! {

broadcast use vstd::array::group_array_axioms;

/// A fixed-size vector of `S` components of type `T`.
#[derive(Clone, Copy)]
pub struct Vecb<const S: usize, T> {
    data: [T; S],
}

impl<const S: usize, T> View for Vecb<S, T> {
    type V = Seq<T>;

    closed spec fn view(&self) -> Seq<T> {
        self.data@
    }
}

impl<const S: usize, T> Vecb<S, T> {
    /// Builds a vector from its components.
    pub fn new(data: [T; S]) -> (r: Self)
        ensures
            r@ == data@,
    {
        Vecb { data }
    }

    /// Borrows the component at position `i`, which must be within range.
    pub fn index(&self, i: usize) -> (r: &T)
        requires
            i < S,
        ensures
            *r == self@[i as int],
    {
        &self.data[i]
    }

    /// Mutably borrows the component at position `i`, which must be within
    /// range.
    pub fn index_mut(&mut self, i: usize) -> (r: &mut T)
        requires
            i < S,
        ensures
            *r == old(self)@[i as int],
            final(self)@ == old(self)@.update(i as int, *final(r)),
    {
        &mut self.data[i]
    }
}

impl<const S: usize, T: Copy> Vecb<S, T> {
    /// Builds a vector with every component set to `value`.
    pub fn splat(value: T) -> (r: Self)
        ensures
            r@.len() == S,
            forall|i: int| 0 <= i < S ==> r@[i] == value,
    {
        Vecb { data: [value; S] }
    }
}

impl<T> Vecb<2, T> {
    /// Mutably borrows the first component.
    pub fn x(&mut self) -> (r: &mut T)
        ensures
            *r == old(self)@[0],
            final(self)@ == old(self)@.update(0, *final(r)),
    {
        &mut self.data[0]
    }

    /// Mutably borrows the second component.
    pub fn y(&mut self) -> (r: &mut T)
        ensures
            *r == old(self)@[1],
            final(self)@ == old(self)@.update(1, *final(r)),
    {
        &mut self.data[1]
    }
}

impl<T> Vecb<3, T> {
    /// Mutably borrows the first component.
    pub fn x(&mut self) -> (r: &mut T)
        ensures
            *r == old(self)@[0],
            final(self)@ == old(self)@.update(0, *final(r)),
    {
        &mut self.data[0]
    }

    /// Mutably borrows the second component.
    pub fn y(&mut self) -> (r: &mut T)
        ensures
            *r == old(self)@[1],
            final(self)@ == old(self)@.update(1, *final(r)),
    {
        &mut self.data[1]
    }

    /// Mutably borrows the third component.
    pub fn z(&mut self) -> (r: &mut T)
        ensures
            *r == old(self)@[2],
            final(self)@ == old(self)@.update(2, *final(r)),
    {
        &mut self.data[2]
    }
}

impl<T> Vecb<4, T> {
    /// Mutably borrows the first component.
    pub fn x(&mut self) -> (r: &mut T)
        ensures
            *r == old(self)@[0],
            final(self)@ == old(self)@.update(0, *final(r)),
    {
        &mut self.data[0]
    }

    /// Mutably borrows the second component.
    pub fn y(&mut self) -> (r: &mut T)
        ensures
            *r == old(self)@[1],
            final(self)@ == old(self)@.update(1, *final(r)),
    {
        &mut self.data[1]
    }

    /// Mutably borrows the third component.
    pub fn z(&mut self) -> (r: &mut T)
        ensures
            *r == old(self)@[2],
            final(self)@ == old(self)@.update(2, *final(r)),
    {
        &mut self.data[2]
    }

    /// Mutably borrows the fourth component.
    pub fn w(&mut self) -> (r: &mut T)
        ensures
            *r == old(self)@[3],
            final(self)@ == old(self)@.update(3, *final(r)),
    {
        &mut self.data[3]
    }
}

pub type Vec2u8 = Vecb<2, u8>;

pub type Vec3u8 = Vecb<3, u8>;

pub type Vec4u8 = Vecb<4, u8>;

pub type Vec2i8 = Vecb<2, i8>;

pub type Vec3i8 = Vecb<3, i8>;

pub type Vec4i8 = Vecb<4, i8>;

pub type Vec2u16 = Vecb<2, u16>;

pub type Vec3u16 = Vecb<3, u16>;

pub type Vec4u16 = Vecb<4, u16>;

pub type Vec2i16 = Vecb<2, i16>;

pub type Vec3i16 = Vecb<3, i16>;

pub type Vec4i16 = Vecb<4, i16>;

pub type Vec2u32 = Vecb<2, u32>;

pub type Vec3u32 = Vecb<3, u32>;

pub type Vec4u32 = Vecb<4, u32>;

pub type Vec2i32 = Vecb<2, i32>;

pub type Vec3i32 = Vecb<3, i32>;

pub type Vec4i32 = Vecb<4, i32>;

pub type Vec2u64 = Vecb<2, u64>;

pub type Vec3u64 = Vecb<3, u64>;

pub type Vec4u64 = Vecb<4, u64>;

pub type Vec2i64 = Vecb<2, i64>;

pub type Vec3i64 = Vecb<3, i64>;

pub type Vec4i64 = Vecb<4, i64>;

} // verus!
