use vstd::prelude::*;

verus! {

use crate::scalar::Scalar;
use crate::vec4::Vec4;

/// The scalar two, named once for the projection formulas.
pub open spec fn two_v<S: Scalar>() -> S {
    S::one_v().add_v(S::one_v())
}

/// All sixteen elements zero.
pub open spec fn zeroes_s<S: Scalar>() -> Seq<S> {
    Seq::new(16, |i: int| S::zero_v())
}

/// Ones on the diagonal (flattened indices 0, 5, 10, 15), zero elsewhere.
pub open spec fn identity_s<S: Scalar>() -> Seq<S> {
    Seq::new(
        16,
        |i: int|
            if i == 0 || i == 5 || i == 10 || i == 15 {
                S::one_v()
            } else {
                S::zero_v()
            },
    )
}

/// Element `i` of the transpose holds element `(i % 4) * 4 + i / 4` of the
/// source: logical rows and columns swap.
pub open spec fn transpose_s<S: Scalar>(m: Seq<S>) -> Seq<S> {
    Seq::new(16, |i: int| m[(i % 4) * 4 + i / 4])
}

/// The translation column (indices 12, 13, 14) grows by the vector's x, y,
/// z; every other element, the w row included, is untouched.
pub open spec fn translate_s<S: Scalar>(m: Seq<S>, t: Vec4<S>) -> Seq<S> {
    Seq::new(
        16,
        |i: int|
            if i == 12 {
                m[12].add_v(t.x)
            } else if i == 13 {
                m[13].add_v(t.y)
            } else if i == 14 {
                m[14].add_v(t.z)
            } else {
                m[i]
            },
    )
}

/// The translation column grows by the vector carried through the matrix's
/// own basis columns: a translation in the matrix's local space.
pub open spec fn translate_local_s<S: Scalar>(m: Seq<S>, t: Vec4<S>) -> Seq<S> {
    Seq::new(
        16,
        |i: int|
            if i == 12 {
                m[12].add_v(m[0].mul_v(t.x).add_v(m[4].mul_v(t.y)).add_v(m[8].mul_v(t.z)))
            } else if i == 13 {
                m[13].add_v(m[1].mul_v(t.x).add_v(m[5].mul_v(t.y)).add_v(m[9].mul_v(t.z)))
            } else if i == 14 {
                m[14].add_v(m[2].mul_v(t.x).add_v(m[6].mul_v(t.y)).add_v(m[10].mul_v(t.z)))
            } else {
                m[i]
            },
    )
}

/// The diagonal elements 0, 5, 10 multiplied by the vector's x, y, z:
/// a scale along the matrix's own axes.
pub open spec fn scale_s<S: Scalar>(m: Seq<S>, v: Vec4<S>) -> Seq<S> {
    Seq::new(
        16,
        |i: int|
            if i == 0 {
                m[0].mul_v(v.x)
            } else if i == 5 {
                m[5].mul_v(v.y)
            } else if i == 10 {
                m[10].mul_v(v.z)
            } else {
                m[i]
            },
    )
}

/// The rotation matrix of the Rodrigues formula for the given axis and
/// angle. The axis is taken as handed in: a caller who wants a pure
/// rotation must pass a unit axis.
pub open spec fn rodrigues_s<S: Scalar>(axis: Vec4<S>, angle: S) -> Seq<S> {
    let c = angle.cos_v();
    let s = angle.sin_v();
    let t = S::one_v().sub_v(c);
    let x = axis.x;
    let y = axis.y;
    let z = axis.z;
    Seq::new(
        16,
        |i: int|
            if i == 0 {
                t.mul_v(x).mul_v(x).add_v(c)
            } else if i == 1 {
                t.mul_v(x).mul_v(y).sub_v(s.mul_v(z))
            } else if i == 2 {
                t.mul_v(x).mul_v(z).add_v(s.mul_v(y))
            } else if i == 4 {
                t.mul_v(x).mul_v(y).add_v(s.mul_v(z))
            } else if i == 5 {
                t.mul_v(y).mul_v(y).add_v(c)
            } else if i == 6 {
                t.mul_v(y).mul_v(z).sub_v(s.mul_v(x))
            } else if i == 8 {
                t.mul_v(x).mul_v(z).sub_v(s.mul_v(y))
            } else if i == 9 {
                t.mul_v(y).mul_v(z).add_v(s.mul_v(x))
            } else if i == 10 {
                t.mul_v(z).mul_v(z).add_v(c)
            } else if i == 15 {
                S::one_v()
            } else {
                S::zero_v()
            },
    )
}

/// Element `i` of the product: the row of `a` against the column of `b`,
/// accumulated in index order on top of the zero scalar.
pub open spec fn mul_el<S: Scalar>(a: Seq<S>, b: Seq<S>, i: int) -> S {
    let col = i / 4;
    let row = i % 4;
    S::zero_v().add_v(a[row].mul_v(b[col * 4])).add_v(a[4 + row].mul_v(b[col * 4 + 1])).add_v(
        a[8 + row].mul_v(b[col * 4 + 2]),
    ).add_v(a[12 + row].mul_v(b[col * 4 + 3]))
}

/// The matrix product in column-major storage.
pub open spec fn mul_s<S: Scalar>(a: Seq<S>, b: Seq<S>) -> Seq<S> {
    Seq::new(16, |i: int| mul_el(a, b, i))
}

/// The matrix applied to a column vector of four homogeneous coordinates.
pub open spec fn mul_vec_s<S: Scalar>(m: Seq<S>, v: Vec4<S>) -> Vec4<S> {
    Vec4 {
        x: m[0].mul_v(v.x).add_v(m[4].mul_v(v.y)).add_v(m[8].mul_v(v.z)).add_v(m[12].mul_v(v.w)),
        y: m[1].mul_v(v.x).add_v(m[5].mul_v(v.y)).add_v(m[9].mul_v(v.z)).add_v(m[13].mul_v(v.w)),
        z: m[2].mul_v(v.x).add_v(m[6].mul_v(v.y)).add_v(m[10].mul_v(v.z)).add_v(m[14].mul_v(v.w)),
        w: m[3].mul_v(v.x).add_v(m[7].mul_v(v.y)).add_v(m[11].mul_v(v.z)).add_v(m[15].mul_v(v.w)),
    }
}

/// Every element multiplied by one scalar.
pub open spec fn mul_scalar_s<S: Scalar>(m: Seq<S>, s: S) -> Seq<S> {
    Seq::new(16, |i: int| m[i].mul_v(s))
}

/// The elementwise sum.
pub open spec fn add_s<S: Scalar>(a: Seq<S>, b: Seq<S>) -> Seq<S> {
    Seq::new(16, |i: int| a[i].add_v(b[i]))
}

/// The elementwise difference.
pub open spec fn sub_s<S: Scalar>(a: Seq<S>, b: Seq<S>) -> Seq<S> {
    Seq::new(16, |i: int| a[i].sub_v(b[i]))
}

/// The right-handed perspective projection: `f` is the cotangent of half
/// the field of view; the planes must differ or the quotients divide by the
/// zero scalar.
pub open spec fn perspective_s<S: Scalar>(fov: S, aspect_ratio: S, near: S, far: S) -> Seq<S> {
    let f = S::one_v().div_v(fov.div_v(two_v::<S>()).tan_v());
    Seq::new(
        16,
        |i: int|
            if i == 0 {
                f.div_v(aspect_ratio)
            } else if i == 5 {
                f
            } else if i == 10 {
                far.add_v(near).div_v(near.sub_v(far))
            } else if i == 11 {
                S::one_v().neg_v()
            } else if i == 14 {
                two_v::<S>().mul_v(far).mul_v(near).div_v(near.sub_v(far))
            } else {
                S::zero_v()
            },
    )
}

/// The orthographic projection of the given box onto the unit cube; each
/// pair of planes must differ or the quotients divide by the zero scalar.
pub open spec fn orthographic_s<S: Scalar>(
    left: S,
    right: S,
    bottom: S,
    top: S,
    near: S,
    far: S,
) -> Seq<S> {
    Seq::new(
        16,
        |i: int|
            if i == 0 {
                two_v::<S>().div_v(right.sub_v(left))
            } else if i == 5 {
                two_v::<S>().div_v(top.sub_v(bottom))
            } else if i == 10 {
                two_v::<S>().neg_v().div_v(far.sub_v(near))
            } else if i == 12 {
                right.add_v(left).neg_v().div_v(right.sub_v(left))
            } else if i == 13 {
                top.add_v(bottom).neg_v().div_v(top.sub_v(bottom))
            } else if i == 14 {
                far.add_v(near).neg_v().div_v(far.sub_v(near))
            } else if i == 15 {
                S::one_v()
            } else {
                S::zero_v()
            },
    )
}

/// The right-handed look-at matrix: the normalized right, up and forward
/// axes stand in the rows, and the translation holds their dot products
/// with the eye position. A forward parallel to up crosses to a zero-length
/// vector, whose normalization the scalar's division decides.
pub open spec fn view_s<S: Scalar>(position: Vec4<S>, forward: Vec4<S>, up: Vec4<S>) -> Seq<S> {
    let right = forward.cross_v(up).normalize_v();
    let upward = right.cross_v(forward).normalize_v();
    let ahead = forward.normalize_v();
    Seq::new(
        16,
        |i: int|
            if i == 0 {
                right.x
            } else if i == 4 {
                right.y
            } else if i == 8 {
                right.z
            } else if i == 1 {
                upward.x
            } else if i == 5 {
                upward.y
            } else if i == 9 {
                upward.z
            } else if i == 2 {
                ahead.x.neg_v()
            } else if i == 6 {
                ahead.y.neg_v()
            } else if i == 10 {
                ahead.z.neg_v()
            } else if i == 12 {
                right.dot_v(position).neg_v()
            } else if i == 13 {
                upward.dot_v(position).neg_v()
            } else if i == 14 {
                ahead.dot_v(position)
            } else if i == 15 {
                S::one_v()
            } else {
                S::zero_v()
            },
    )
}

/// The fourth column as a vector: the matrix's translation.
pub open spec fn position_s<S: Scalar>(m: Seq<S>) -> Vec4<S> {
    Vec4 { x: m[12], y: m[13], z: m[14], w: m[15] }
}

/// A 4x4 transform in column-major storage: the element at flattened index
/// `col * 4 + row` is the entry of logical row `row` and column `col`. The
/// storage is opaque; every contract speaks of the element sequence `els()`.
#[derive(Clone, Copy, PartialEq, Debug)]
pub struct Mat4<S> {
    elements: [S; 16],
}

impl<S: Scalar> Mat4<S> {
    /// The sixteen elements in column-major order.
    pub closed spec fn els(self) -> Seq<S> {
        self.elements@
    }

    pub fn zeroes() -> (r: Self)
        ensures
            r.els() == zeroes_s::<S>(),
    {
        let z = S::zero();
        let elements = [z, z, z, z, z, z, z, z, z, z, z, z, z, z, z, z];
        proof {
            assert(elements@ =~= zeroes_s::<S>());
        }
        Mat4 { elements }
    }

    pub fn identity() -> (r: Self)
        ensures
            r.els() == identity_s::<S>(),
    {
        let z = S::zero();
        let o = S::one();
        let elements = [o, z, z, z, z, o, z, z, z, z, o, z, z, z, z, o];
        proof {
            assert(elements@ =~= identity_s::<S>());
        }
        Mat4 { elements }
    }

    /// Reads one element of the column-major storage.
    pub fn element(&self, index: usize) -> (r: S)
        requires
            index < 16,
        ensures
            r == self.els()[index as int],
    {
        self.elements[index]
    }

    /// The first column: the matrix's x basis vector, as a snapshot.
    pub fn x_vector(&self) -> (r: Vec4<S>)
        ensures
            r == (Vec4 {
                x: self.els()[0],
                y: self.els()[1],
                z: self.els()[2],
                w: self.els()[3],
            }),
    {
        Vec4 {
            x: self.elements[0],
            y: self.elements[1],
            z: self.elements[2],
            w: self.elements[3],
        }
    }

    /// The second column: the matrix's y basis vector, as a snapshot.
    pub fn y_vector(&self) -> (r: Vec4<S>)
        ensures
            r == (Vec4 {
                x: self.els()[4],
                y: self.els()[5],
                z: self.els()[6],
                w: self.els()[7],
            }),
    {
        Vec4 {
            x: self.elements[4],
            y: self.elements[5],
            z: self.elements[6],
            w: self.elements[7],
        }
    }

    /// The third column: the matrix's z basis vector, as a snapshot.
    pub fn z_vector(&self) -> (r: Vec4<S>)
        ensures
            r == (Vec4 {
                x: self.els()[8],
                y: self.els()[9],
                z: self.els()[10],
                w: self.els()[11],
            }),
    {
        Vec4 {
            x: self.elements[8],
            y: self.elements[9],
            z: self.elements[10],
            w: self.elements[11],
        }
    }

    /// The fourth column: the translation, as a snapshot.
    pub fn position(&self) -> (r: Vec4<S>)
        ensures
            r == position_s(self.els()),
    {
        Vec4 {
            x: self.elements[12],
            y: self.elements[13],
            z: self.elements[14],
            w: self.elements[15],
        }
    }

    pub fn transpose(&self) -> (r: Self)
        ensures
            r.els() == transpose_s(self.els()),
    {
        let e = &self.elements;
        let elements = [
            e[0],
            e[4],
            e[8],
            e[12],
            e[1],
            e[5],
            e[9],
            e[13],
            e[2],
            e[6],
            e[10],
            e[14],
            e[3],
            e[7],
            e[11],
            e[15],
        ];
        proof {
            assert(elements@ =~= transpose_s(self.els()));
        }
        Mat4 { elements }
    }

    /// Adds the vector to the translation column: a translation in world
    /// space, blind to the matrix's rotation and scale.
    pub fn translate(&self, translation: &Vec4<S>) -> (r: Self)
        ensures
            r.els() == translate_s(self.els(), *translation),
    {
        let e = &self.elements;
        let elements = [
            e[0],
            e[1],
            e[2],
            e[3],
            e[4],
            e[5],
            e[6],
            e[7],
            e[8],
            e[9],
            e[10],
            e[11],
            e[12].add(translation.x),
            e[13].add(translation.y),
            e[14].add(translation.z),
            e[15],
        ];
        proof {
            assert(elements@ =~= translate_s(self.els(), *translation));
        }
        Mat4 { elements }
    }

    /// Adds the vector carried through the matrix's own basis columns: a
    /// translation in the matrix's local space.
    pub fn translate_local(&self, translation: &Vec4<S>) -> (r: Self)
        ensures
            r.els() == translate_local_s(self.els(), *translation),
    {
        let e = &self.elements;
        let dx = e[0].mul(translation.x).add(e[4].mul(translation.y)).add(
            e[8].mul(translation.z),
        );
        let dy = e[1].mul(translation.x).add(e[5].mul(translation.y)).add(
            e[9].mul(translation.z),
        );
        let dz = e[2].mul(translation.x).add(e[6].mul(translation.y)).add(
            e[10].mul(translation.z),
        );
        let elements = [
            e[0],
            e[1],
            e[2],
            e[3],
            e[4],
            e[5],
            e[6],
            e[7],
            e[8],
            e[9],
            e[10],
            e[11],
            e[12].add(dx),
            e[13].add(dy),
            e[14].add(dz),
            e[15],
        ];
        proof {
            assert(elements@ =~= translate_local_s(self.els(), *translation));
        }
        Mat4 { elements }
    }

    /// Multiplies the diagonal by the vector's x, y, z: a scale along the
    /// matrix's own axes.
    pub fn scale(&self, scale: Vec4<S>) -> (r: Self)
        ensures
            r.els() == scale_s(self.els(), scale),
    {
        let e = &self.elements;
        let elements = [
            e[0].mul(scale.x),
            e[1],
            e[2],
            e[3],
            e[4],
            e[5].mul(scale.y),
            e[6],
            e[7],
            e[8],
            e[9],
            e[10].mul(scale.z),
            e[11],
            e[12],
            e[13],
            e[14],
            e[15],
        ];
        proof {
            assert(elements@ =~= scale_s(self.els(), scale));
        }
        Mat4 { elements }
    }

    /// The rotation matrix of the Rodrigues formula. The axis is not
    /// normalized here: pass a unit axis or the result is no rotation.
    pub fn rodrigues(axis: Vec4<S>, angle: S) -> (r: Self)
        ensures
            r.els() == rodrigues_s(axis, angle),
    {
        let c = angle.cos();
        let s = angle.sin();
        let t = S::one().sub(c);
        let x = axis.x;
        let y = axis.y;
        let z = axis.z;
        let zero = S::zero();
        let elements = [
            t.mul(x).mul(x).add(c),
            t.mul(x).mul(y).sub(s.mul(z)),
            t.mul(x).mul(z).add(s.mul(y)),
            zero,
            t.mul(x).mul(y).add(s.mul(z)),
            t.mul(y).mul(y).add(c),
            t.mul(y).mul(z).sub(s.mul(x)),
            zero,
            t.mul(x).mul(z).sub(s.mul(y)),
            t.mul(y).mul(z).add(s.mul(x)),
            t.mul(z).mul(z).add(c),
            zero,
            zero,
            zero,
            zero,
            S::one(),
        ];
        proof {
            assert(elements@ =~= rodrigues_s(axis, angle));
        }
        Mat4 { elements }
    }

    pub fn mul(self, rhs: Self) -> (r: Self)
        ensures
            r.els() == mul_s(self.els(), rhs.els()),
    {
        let a = &self.elements;
        let b = &rhs.elements;
        let z = S::zero();
        let elements = [
            z.add(a[0].mul(b[0])).add(a[4].mul(b[1])).add(a[8].mul(b[2])).add(a[12].mul(b[3])),
            z.add(a[1].mul(b[0])).add(a[5].mul(b[1])).add(a[9].mul(b[2])).add(a[13].mul(b[3])),
            z.add(a[2].mul(b[0])).add(a[6].mul(b[1])).add(a[10].mul(b[2])).add(a[14].mul(b[3])),
            z.add(a[3].mul(b[0])).add(a[7].mul(b[1])).add(a[11].mul(b[2])).add(a[15].mul(b[3])),
            z.add(a[0].mul(b[4])).add(a[4].mul(b[5])).add(a[8].mul(b[6])).add(a[12].mul(b[7])),
            z.add(a[1].mul(b[4])).add(a[5].mul(b[5])).add(a[9].mul(b[6])).add(a[13].mul(b[7])),
            z.add(a[2].mul(b[4])).add(a[6].mul(b[5])).add(a[10].mul(b[6])).add(a[14].mul(b[7])),
            z.add(a[3].mul(b[4])).add(a[7].mul(b[5])).add(a[11].mul(b[6])).add(a[15].mul(b[7])),
            z.add(a[0].mul(b[8])).add(a[4].mul(b[9])).add(a[8].mul(b[10])).add(a[12].mul(b[11])),
            z.add(a[1].mul(b[8])).add(a[5].mul(b[9])).add(a[9].mul(b[10])).add(a[13].mul(b[11])),
            z.add(a[2].mul(b[8])).add(a[6].mul(b[9])).add(a[10].mul(b[10])).add(a[14].mul(b[11])),
            z.add(a[3].mul(b[8])).add(a[7].mul(b[9])).add(a[11].mul(b[10])).add(a[15].mul(b[11])),
            z.add(a[0].mul(b[12])).add(a[4].mul(b[13])).add(a[8].mul(b[14])).add(a[12].mul(b[15])),
            z.add(a[1].mul(b[12])).add(a[5].mul(b[13])).add(a[9].mul(b[14])).add(a[13].mul(b[15])),
            z.add(a[2].mul(b[12])).add(a[6].mul(b[13])).add(a[10].mul(b[14])).add(a[14].mul(b[15])),
            z.add(a[3].mul(b[12])).add(a[7].mul(b[13])).add(a[11].mul(b[14])).add(a[15].mul(b[15])),
        ];
        proof {
            assert(elements@ =~= mul_s(self.els(), rhs.els()));
        }
        Mat4 { elements }
    }

    pub fn mul_assign(&mut self, rhs: Self)
        ensures
            final(self).els() == mul_s(old(self).els(), rhs.els()),
    {
        let m = *self;
        *self = m.mul(rhs);
    }

    /// Applies the matrix to a column vector of four homogeneous
    /// coordinates.
    pub fn mul_vec(self, rhs: Vec4<S>) -> (r: Vec4<S>)
        ensures
            r == mul_vec_s(self.els(), rhs),
    {
        let e = &self.elements;
        Vec4 {
            x: e[0].mul(rhs.x).add(e[4].mul(rhs.y)).add(e[8].mul(rhs.z)).add(e[12].mul(rhs.w)),
            y: e[1].mul(rhs.x).add(e[5].mul(rhs.y)).add(e[9].mul(rhs.z)).add(e[13].mul(rhs.w)),
            z: e[2].mul(rhs.x).add(e[6].mul(rhs.y)).add(e[10].mul(rhs.z)).add(e[14].mul(rhs.w)),
            w: e[3].mul(rhs.x).add(e[7].mul(rhs.y)).add(e[11].mul(rhs.z)).add(e[15].mul(rhs.w)),
        }
    }

    pub fn mul_scalar(self, rhs: S) -> (r: Self)
        ensures
            r.els() == mul_scalar_s(self.els(), rhs),
    {
        let e = &self.elements;
        let elements = [
            e[0].mul(rhs),
            e[1].mul(rhs),
            e[2].mul(rhs),
            e[3].mul(rhs),
            e[4].mul(rhs),
            e[5].mul(rhs),
            e[6].mul(rhs),
            e[7].mul(rhs),
            e[8].mul(rhs),
            e[9].mul(rhs),
            e[10].mul(rhs),
            e[11].mul(rhs),
            e[12].mul(rhs),
            e[13].mul(rhs),
            e[14].mul(rhs),
            e[15].mul(rhs),
        ];
        proof {
            assert(elements@ =~= mul_scalar_s(self.els(), rhs));
        }
        Mat4 { elements }
    }

    pub fn mul_scalar_assign(&mut self, rhs: S)
        ensures
            final(self).els() == mul_scalar_s(old(self).els(), rhs),
    {
        let m = *self;
        *self = m.mul_scalar(rhs);
    }

    pub fn add(self, rhs: Self) -> (r: Self)
        ensures
            r.els() == add_s(self.els(), rhs.els()),
    {
        let a = &self.elements;
        let b = &rhs.elements;
        let elements = [
            a[0].add(b[0]),
            a[1].add(b[1]),
            a[2].add(b[2]),
            a[3].add(b[3]),
            a[4].add(b[4]),
            a[5].add(b[5]),
            a[6].add(b[6]),
            a[7].add(b[7]),
            a[8].add(b[8]),
            a[9].add(b[9]),
            a[10].add(b[10]),
            a[11].add(b[11]),
            a[12].add(b[12]),
            a[13].add(b[13]),
            a[14].add(b[14]),
            a[15].add(b[15]),
        ];
        proof {
            assert(elements@ =~= add_s(self.els(), rhs.els()));
        }
        Mat4 { elements }
    }

    pub fn add_assign(&mut self, rhs: Self)
        ensures
            final(self).els() == add_s(old(self).els(), rhs.els()),
    {
        let m = *self;
        *self = m.add(rhs);
    }

    pub fn sub(self, rhs: Self) -> (r: Self)
        ensures
            r.els() == sub_s(self.els(), rhs.els()),
    {
        let a = &self.elements;
        let b = &rhs.elements;
        let elements = [
            a[0].sub(b[0]),
            a[1].sub(b[1]),
            a[2].sub(b[2]),
            a[3].sub(b[3]),
            a[4].sub(b[4]),
            a[5].sub(b[5]),
            a[6].sub(b[6]),
            a[7].sub(b[7]),
            a[8].sub(b[8]),
            a[9].sub(b[9]),
            a[10].sub(b[10]),
            a[11].sub(b[11]),
            a[12].sub(b[12]),
            a[13].sub(b[13]),
            a[14].sub(b[14]),
            a[15].sub(b[15]),
        ];
        proof {
            assert(elements@ =~= sub_s(self.els(), rhs.els()));
        }
        Mat4 { elements }
    }

    pub fn sub_assign(&mut self, rhs: Self)
        ensures
            final(self).els() == sub_s(old(self).els(), rhs.els()),
    {
        let m = *self;
        *self = m.sub(rhs);
    }

    /// Composes the rotation after the matrix (`self * R`): a rotation in
    /// the matrix's local space, the naming notwithstanding.
    pub fn rotate(&mut self, axis: Vec4<S>, angle: S)
        ensures
            final(self).els() == mul_s(old(self).els(), rodrigues_s(axis, angle)),
    {
        let r = Self::rodrigues(axis, angle);
        let m = *self;
        *self = m.mul(r);
    }

    /// Composes the rotation before the matrix (`R * self`): a rotation in
    /// world space, the naming notwithstanding.
    pub fn rotate_local(&mut self, axis: Vec4<S>, angle: S)
        ensures
            final(self).els() == mul_s(rodrigues_s(axis, angle), old(self).els()),
    {
        let r = Self::rodrigues(axis, angle);
        let m = *self;
        *self = r.mul(m);
    }

    /// The right-handed perspective projection; `fov` is in radians, and
    /// `near` must differ from `far` or the quotients divide by zero.
    pub fn perspective(fov: S, aspect_ratio: S, near: S, far: S) -> (r: Self)
        ensures
            r.els() == perspective_s(fov, aspect_ratio, near, far),
    {
        let two = S::one().add(S::one());
        let f = S::one().div(fov.div(two).tan());
        let z = S::zero();
        let elements = [
            f.div(aspect_ratio),
            z,
            z,
            z,
            z,
            f,
            z,
            z,
            z,
            z,
            far.add(near).div(near.sub(far)),
            S::one().neg(),
            z,
            z,
            two.mul(far).mul(near).div(near.sub(far)),
            z,
        ];
        proof {
            assert(elements@ =~= perspective_s(fov, aspect_ratio, near, far));
        }
        Mat4 { elements }
    }

    /// The orthographic projection of the given box onto the unit cube;
    /// each pair of planes must differ or the quotients divide by zero.
    pub fn orthographic(left: S, right: S, bottom: S, top: S, near: S, far: S) -> (r: Self)
        ensures
            r.els() == orthographic_s(left, right, bottom, top, near, far),
    {
        let two = S::one().add(S::one());
        let z = S::zero();
        let elements = [
            two.div(right.sub(left)),
            z,
            z,
            z,
            z,
            two.div(top.sub(bottom)),
            z,
            z,
            z,
            z,
            two.neg().div(far.sub(near)),
            z,
            right.add(left).neg().div(right.sub(left)),
            top.add(bottom).neg().div(top.sub(bottom)),
            far.add(near).neg().div(far.sub(near)),
            S::one(),
        ];
        proof {
            assert(elements@ =~= orthographic_s(left, right, bottom, top, near, far));
        }
        Mat4 { elements }
    }

    /// The right-handed look-at matrix; `forward` and `up` must not be
    /// parallel, or the normalized cross product divides by zero.
    pub fn view(position: Vec4<S>, forward: Vec4<S>, up: Vec4<S>) -> (r: Self)
        ensures
            r.els() == view_s(position, forward, up),
    {
        let right = forward.cross(&up).normalize();
        let upward = right.cross(&forward).normalize();
        let ahead = forward.normalize();
        let z = S::zero();
        let elements = [
            right.x,
            upward.x,
            ahead.x.neg(),
            z,
            right.y,
            upward.y,
            ahead.y.neg(),
            z,
            right.z,
            upward.z,
            ahead.z.neg(),
            z,
            right.dot(&position).neg(),
            upward.dot(&position).neg(),
            ahead.dot(&position),
            S::one(),
        ];
        proof {
            assert(elements@ =~= view_s(position, forward, up));
        }
        Mat4 { elements }
    }
}

} // verus!
