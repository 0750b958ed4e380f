use vstd::prelude::*;

verus! {

use crate::scalar::Scalar;

/// A four-component homogeneous vector: a point (`w` one), a direction
/// (`w` zero), or a generic four-lane tuple. No invariant ties the lanes
/// together; that a point carries `w == 1` is the caller's convention.
#[derive(Clone, Copy, PartialEq, Debug)]
pub struct Vec4<S> {
    pub x: S,
    pub y: S,
    pub z: S,
    pub w: S,
}

impl<S: Scalar> Vec4<S> {
    /// The sum of the per-lane products, accumulated left to right.
    pub open spec fn dot_v(self, other: Self) -> S {
        self.x.mul_v(other.x).add_v(self.y.mul_v(other.y)).add_v(self.z.mul_v(other.z)).add_v(
            self.w.mul_v(other.w),
        )
    }

    /// The square root of the vector's dot product with itself.
    pub open spec fn length_v(self) -> S {
        self.dot_v(self).sqrt_v()
    }

    /// Every lane divided by the length; lanes of a zero-length vector are
    /// divided by the zero scalar, with whatever the scalar's division then
    /// yields.
    pub open spec fn normalize_v(self) -> Self {
        let l = self.length_v();
        Vec4 { x: self.x.div_v(l), y: self.y.div_v(l), z: self.z.div_v(l), w: self.w.div_v(l) }
    }

    /// The three-dimensional cross product over the x, y, z lanes; the `w`
    /// lane of the result is always the zero scalar, whatever the inputs'
    /// `w` lanes hold.
    pub open spec fn cross_v(self, other: Self) -> Self {
        Vec4 {
            x: self.y.mul_v(other.z).sub_v(self.z.mul_v(other.y)),
            y: self.z.mul_v(other.x).sub_v(self.x.mul_v(other.z)),
            z: self.x.mul_v(other.y).sub_v(self.y.mul_v(other.x)),
            w: S::zero_v(),
        }
    }

    pub open spec fn add_v(self, other: Self) -> Self {
        Vec4 {
            x: self.x.add_v(other.x),
            y: self.y.add_v(other.y),
            z: self.z.add_v(other.z),
            w: self.w.add_v(other.w),
        }
    }

    pub open spec fn sub_v(self, other: Self) -> Self {
        Vec4 {
            x: self.x.sub_v(other.x),
            y: self.y.sub_v(other.y),
            z: self.z.sub_v(other.z),
            w: self.w.sub_v(other.w),
        }
    }

    pub open spec fn mul_scalar_v(self, other: S) -> Self {
        Vec4 {
            x: self.x.mul_v(other),
            y: self.y.mul_v(other),
            z: self.z.mul_v(other),
            w: self.w.mul_v(other),
        }
    }

    pub open spec fn div_scalar_v(self, other: S) -> Self {
        Vec4 {
            x: self.x.div_v(other),
            y: self.y.div_v(other),
            z: self.z.div_v(other),
            w: self.w.div_v(other),
        }
    }

    pub open spec fn neg_v(self) -> Self {
        Vec4 { x: self.x.neg_v(), y: self.y.neg_v(), z: self.z.neg_v(), w: self.w.neg_v() }
    }

    /// Lane 0 is x, 1 is y, 2 is z, 3 is w.
    pub open spec fn index_v(self, i: int) -> S {
        if i == 0 {
            self.x
        } else if i == 1 {
            self.y
        } else if i == 2 {
            self.z
        } else {
            self.w
        }
    }

    pub open spec fn update_v(self, i: int, value: S) -> Self {
        if i == 0 {
            Vec4 { x: value, ..self }
        } else if i == 1 {
            Vec4 { y: value, ..self }
        } else if i == 2 {
            Vec4 { z: value, ..self }
        } else {
            Vec4 { w: value, ..self }
        }
    }

    pub fn new(x: S, y: S, z: S, w: S) -> (r: Self)
        ensures
            r == (Vec4 { x, y, z, w }),
    {
        Vec4 { x, y, z, w }
    }

    /// All four lanes the zero scalar.
    pub fn zero() -> (r: Self)
        ensures
            r.x == S::zero_v(),
            r.y == S::zero_v(),
            r.z == S::zero_v(),
            r.w == S::zero_v(),
    {
        let o = S::zero();
        Vec4 { x: o, y: o, z: o, w: o }
    }

    /// All four lanes the one scalar.
    pub fn one() -> (r: Self)
        ensures
            r.x == S::one_v(),
            r.y == S::one_v(),
            r.z == S::one_v(),
            r.w == S::one_v(),
    {
        let o = S::one();
        Vec4 { x: o, y: o, z: o, w: o }
    }

    pub fn dot(&self, other: &Self) -> (r: S)
        ensures
            r == self.dot_v(*other),
    {
        self.x.mul(other.x).add(self.y.mul(other.y)).add(self.z.mul(other.z)).add(
            self.w.mul(other.w),
        )
    }

    pub fn length(&self) -> (r: S)
        ensures
            r == self.length_v(),
    {
        self.dot(self).sqrt()
    }

    /// Divides every lane by the length, which is computed once; a
    /// zero-length input divides by zero and the scalar decides the outcome.
    pub fn normalize(&self) -> (r: Self)
        ensures
            r == self.normalize_v(),
    {
        let length = self.length();
        Vec4 {
            x: self.x.div(length),
            y: self.y.div(length),
            z: self.z.div(length),
            w: self.w.div(length),
        }
    }

    pub fn cross(&self, other: &Self) -> (r: Self)
        ensures
            r == self.cross_v(*other),
    {
        Vec4 {
            x: self.y.mul(other.z).sub(self.z.mul(other.y)),
            y: self.z.mul(other.x).sub(self.x.mul(other.z)),
            z: self.x.mul(other.y).sub(self.y.mul(other.x)),
            w: S::zero(),
        }
    }

    pub fn add(self, rhs: Self) -> (r: Self)
        ensures
            r == self.add_v(rhs),
    {
        Vec4 {
            x: self.x.add(rhs.x),
            y: self.y.add(rhs.y),
            z: self.z.add(rhs.z),
            w: self.w.add(rhs.w),
        }
    }

    pub fn add_assign(&mut self, rhs: Self)
        ensures
            *final(self) == old(self).add_v(rhs),
    {
        let v = *self;
        *self = v.add(rhs);
    }

    pub fn sub(self, rhs: Self) -> (r: Self)
        ensures
            r == self.sub_v(rhs),
    {
        Vec4 {
            x: self.x.sub(rhs.x),
            y: self.y.sub(rhs.y),
            z: self.z.sub(rhs.z),
            w: self.w.sub(rhs.w),
        }
    }

    pub fn sub_assign(&mut self, rhs: Self)
        ensures
            *final(self) == old(self).sub_v(rhs),
    {
        let v = *self;
        *self = v.sub(rhs);
    }

    /// Vector-by-vector multiplication is an alias for the cross product,
    /// not the componentwise product. This non-standard meaning is the
    /// kernel's own convention and is stated here so that no call site can
    /// mistake it.
    pub fn mul(self, rhs: Self) -> (r: Self)
        ensures
            r == self.cross_v(rhs),
    {
        self.cross(&rhs)
    }

    pub fn mul_assign(&mut self, rhs: Self)
        ensures
            *final(self) == old(self).cross_v(rhs),
    {
        let v = *self;
        *self = v.mul(rhs);
    }

    pub fn mul_scalar(self, rhs: S) -> (r: Self)
        ensures
            r == self.mul_scalar_v(rhs),
    {
        Vec4 {
            x: self.x.mul(rhs),
            y: self.y.mul(rhs),
            z: self.z.mul(rhs),
            w: self.w.mul(rhs),
        }
    }

    pub fn mul_scalar_assign(&mut self, rhs: S)
        ensures
            *final(self) == old(self).mul_scalar_v(rhs),
    {
        let v = *self;
        *self = v.mul_scalar(rhs);
    }

    pub fn div(self, rhs: S) -> (r: Self)
        ensures
            r == self.div_scalar_v(rhs),
    {
        Vec4 {
            x: self.x.div(rhs),
            y: self.y.div(rhs),
            z: self.z.div(rhs),
            w: self.w.div(rhs),
        }
    }

    pub fn div_assign(&mut self, rhs: S)
        ensures
            *final(self) == old(self).div_scalar_v(rhs),
    {
        let v = *self;
        *self = v.div(rhs);
    }

    pub fn neg(self) -> (r: Self)
        ensures
            r == self.neg_v(),
    {
        Vec4 { x: self.x.neg(), y: self.y.neg(), z: self.z.neg(), w: self.w.neg() }
    }

    /// Reads lane `index`; an index past the fourth lane is a caller error,
    /// ruled out here before the fact rather than detected at run time.
    pub fn index(&self, index: usize) -> (r: S)
        requires
            index < 4,
        ensures
            r == self.index_v(index as int),
    {
        if index == 0 {
            self.x
        } else if index == 1 {
            self.y
        } else if index == 2 {
            self.z
        } else {
            self.w
        }
    }

    /// Writes lane `index`, under the same bound as `index`.
    pub fn set_component(&mut self, index: usize, value: S)
        requires
            index < 4,
        ensures
            *final(self) == old(self).update_v(index as int, value),
    {
        if index == 0 {
            self.x = value;
        } else if index == 1 {
            self.y = value;
        } else if index == 2 {
            self.z = value;
        } else {
            self.w = value;
        }
    }
}

} // verus!
