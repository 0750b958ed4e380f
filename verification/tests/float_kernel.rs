use vecmat4::Mat4;
use vecmat4::Scalar;
use vecmat4::Vec4;

/// An IEEE single-precision scalar for the kernel. Its arithmetic is the
/// machine's floating point; the kernel's layout and composition logic is
/// exercised here on top of it.
#[derive(Clone, Copy, PartialEq, Debug)]
struct R(f32);

impl Scalar for R {
    fn zero_v() -> R {
        R(0.0)
    }

    fn one_v() -> R {
        R(1.0)
    }

    fn add_v(self, other: R) -> R {
        R(self.0 + other.0)
    }

    fn sub_v(self, other: R) -> R {
        R(self.0 - other.0)
    }

    fn mul_v(self, other: R) -> R {
        R(self.0 * other.0)
    }

    fn div_v(self, other: R) -> R {
        R(self.0 / other.0)
    }

    fn neg_v(self) -> R {
        R(-self.0)
    }

    fn sqrt_v(self) -> R {
        R(self.0.sqrt())
    }

    fn sin_v(self) -> R {
        R(self.0.sin())
    }

    fn cos_v(self) -> R {
        R(self.0.cos())
    }

    fn tan_v(self) -> R {
        R(self.0.tan())
    }

    fn zero() -> R {
        R(0.0)
    }

    fn one() -> R {
        R(1.0)
    }

    fn add(self, other: R) -> R {
        R(self.0 + other.0)
    }

    fn sub(self, other: R) -> R {
        R(self.0 - other.0)
    }

    fn mul(self, other: R) -> R {
        R(self.0 * other.0)
    }

    fn div(self, other: R) -> R {
        R(self.0 / other.0)
    }

    fn neg(self) -> R {
        R(-self.0)
    }

    fn sqrt(self) -> R {
        R(self.0.sqrt())
    }

    fn sin(self) -> R {
        R(self.0.sin())
    }

    fn cos(self) -> R {
        R(self.0.cos())
    }

    fn tan(self) -> R {
        R(self.0.tan())
    }
}

fn v(x: f32, y: f32, z: f32, w: f32) -> Vec4<R> {
    Vec4::new(R(x), R(y), R(z), R(w))
}

fn close(a: f32, b: f32) -> bool {
    (a - b).abs() < 1e-5
}

/// A matrix with varied, finite entries for the algebraic tests.
fn sample_matrix() -> Mat4<R> {
    let m = Mat4::orthographic(R(-2.0), R(5.0), R(1.0), R(7.0), R(0.5), R(9.0));
    let m = m.translate(&v(1.5, -2.0, 3.25, 0.0));
    m.scale(v(2.0, -3.0, 0.5, 1.0))
}

fn assert_same_elements(a: &Mat4<R>, b: &Mat4<R>) {
    for i in 0..16 {
        assert_eq!(a.element(i).0, b.element(i).0, "element {}", i);
    }
}

#[test]
fn normalize_has_unit_length() {
    for &(x, y, z, w) in
        &[(3.0, 4.0, 0.0, 0.0), (1.0, 1.0, 1.0, 1.0), (-2.5, 0.25, 7.0, 0.125), (0.0, 0.0, 0.1, 0.0)]
    {
        let n = v(x, y, z, w).normalize();
        assert!(close(n.length().0, 1.0), "length {}", n.length().0);
    }
}

#[test]
fn normalize_of_the_zero_vector_propagates_nan() {
    let n = v(0.0, 0.0, 0.0, 0.0).normalize();
    assert!(n.x.0.is_nan());
    assert!(n.w.0.is_nan());
}

#[test]
fn transpose_twice_restores_every_element() {
    let m = sample_matrix();
    assert_same_elements(&m.transpose().transpose(), &m);
}

#[test]
fn transpose_swaps_rows_and_columns() {
    let m = sample_matrix();
    let t = m.transpose();
    for row in 0..4 {
        for col in 0..4 {
            assert_eq!(t.element(row * 4 + col).0, m.element(col * 4 + row).0);
        }
    }
}

#[test]
fn identity_is_left_and_right_identity() {
    let m = sample_matrix();
    assert_same_elements(&Mat4::identity().mul(m), &m);
    assert_same_elements(&m.mul(Mat4::identity()), &m);
}

#[test]
fn identity_fixes_every_vector() {
    let p = v(4.0, -2.5, 0.75, 1.0);
    let q = Mat4::identity().mul_vec(p);
    assert_eq!(q, p);
}

#[test]
fn cross_is_orthogonal_to_both_factors() {
    let a = v(1.0, 2.0, 3.0, 0.0);
    let b = v(-4.0, 0.5, 2.0, 0.0);
    let c = a.cross(&b);
    assert!(close(c.dot(&a).0, 0.0));
    assert!(close(c.dot(&b).0, 0.0));
    assert_eq!(c.w.0, 0.0);
}

#[test]
fn vector_product_is_the_cross_product() {
    let a = v(1.0, 2.0, 3.0, 5.0);
    let b = v(-4.0, 0.5, 2.0, 7.0);
    assert_eq!(a.mul(b), a.cross(&b));
    let mut c = a;
    c.mul_assign(b);
    assert_eq!(c, a.cross(&b));
}

#[test]
fn translate_moves_the_position_by_the_vector() {
    let m = sample_matrix();
    let t = v(0.5, -1.25, 8.0, 3.0);
    let moved = m.translate(&t).position();
    let summed = m.position().add(t);
    assert_eq!(moved.x, summed.x);
    assert_eq!(moved.y, summed.y);
    assert_eq!(moved.z, summed.z);
    assert_eq!(moved.w, m.position().w);
}

#[test]
fn scaling_the_identity_sets_the_diagonal() {
    let m = Mat4::identity().scale(v(2.0, 3.0, 4.0, 1.0));
    let expected = [2.0, 3.0, 4.0, 1.0];
    for i in 0..16 {
        if i % 5 == 0 {
            assert_eq!(m.element(i).0, expected[i / 5]);
        } else {
            assert_eq!(m.element(i).0, 0.0);
        }
    }
}

#[test]
fn perspective_ninety_degrees_square_aspect() {
    let m = Mat4::perspective(R(90.0f32.to_radians()), R(1.0), R(0.1), R(100.0));
    assert_eq!(m.element(11).0, -1.0);
    assert_eq!(m.element(0).0, m.element(5).0);
}

#[test]
fn perspective_quotients_are_exact() {
    let (fov, aspect, near, far) = (90.0f32.to_radians(), 2.0f32, 0.1f32, 100.0f32);
    let m = Mat4::perspective(R(fov), R(aspect), R(near), R(far));
    let f = 1.0 / (fov / 2.0).tan();
    assert_eq!(m.element(0).0, f / aspect);
    assert_eq!(m.element(5).0, f);
    assert_eq!(m.element(10).0, (far + near) / (near - far));
    assert_eq!(m.element(14).0, (2.0 * far * near) / (near - far));
    assert_eq!(m.element(15).0, 0.0);
}

#[test]
fn orthographic_quotients_are_exact() {
    let (l, r, b, t, n, f) = (-2.0f32, 5.0f32, 1.0f32, 7.0f32, 0.5f32, 9.0f32);
    let m = Mat4::orthographic(R(l), R(r), R(b), R(t), R(n), R(f));
    assert_eq!(m.element(0).0, 2.0 / (r - l));
    assert_eq!(m.element(5).0, 2.0 / (t - b));
    assert_eq!(m.element(10).0, -2.0 / (f - n));
    assert_eq!(m.element(12).0, -(r + l) / (r - l));
    assert_eq!(m.element(13).0, -(t + b) / (t - b));
    assert_eq!(m.element(14).0, -(f + n) / (f - n));
    assert_eq!(m.element(15).0, 1.0);
}

#[test]
fn rodrigues_embeds_sine_and_cosine() {
    let angle = 0.5f32;
    let m = Mat4::rodrigues(v(0.0, 0.0, 1.0, 0.0), R(angle));
    let (c, s) = (angle.cos(), angle.sin());
    let t = 1.0 - c;
    assert_eq!(m.element(0).0, t * 0.0 * 0.0 + c);
    assert_eq!(m.element(1).0, t * 0.0 * 0.0 - s * 1.0);
    assert_eq!(m.element(4).0, t * 0.0 * 0.0 + s * 1.0);
    assert_eq!(m.element(5).0, t * 0.0 * 0.0 + c);
    assert_eq!(m.element(10).0, t * 1.0 * 1.0 + c);
    assert_eq!(m.element(15).0, 1.0);
    assert_eq!(m.element(3).0, 0.0);
    assert_eq!(m.element(12).0, 0.0);
}

#[test]
fn orthographic_unit_box_is_the_sign_flip() {
    let m = Mat4::orthographic(R(-1.0), R(1.0), R(-1.0), R(1.0), R(-1.0), R(1.0));
    for i in 0..16 {
        let expected = match i {
            0 | 5 | 15 => 1.0,
            10 => -1.0,
            _ => 0.0,
        };
        assert_eq!(m.element(i).0, expected, "element {}", i);
    }
}

#[test]
fn rodrigues_zero_angle_is_the_identity() {
    let m = Mat4::rodrigues(v(0.0, 0.0, 1.0, 0.0), R(0.0));
    let id = Mat4::<R>::identity();
    for i in 0..16 {
        assert_eq!(m.element(i).0, id.element(i).0, "element {}", i);
    }
}

#[test]
fn view_along_minus_z_is_the_identity() {
    let m = Mat4::view(v(0.0, 0.0, 0.0, 0.0), v(0.0, 0.0, -1.0, 0.0), v(0.0, 1.0, 0.0, 0.0));
    let id = Mat4::<R>::identity();
    for i in 0..16 {
        assert_eq!(m.element(i).0, id.element(i).0, "element {}", i);
    }
}

#[test]
fn view_embeds_the_negative_dot_products() {
    let eye = v(1.0, 2.0, 3.0, 1.0);
    let m = Mat4::view(eye, v(0.0, 0.0, -1.0, 0.0), v(0.0, 1.0, 0.0, 0.0));
    // right = (1, 0, 0), up = (0, 1, 0), forward = (0, 0, -1)
    assert_eq!(m.element(12).0, -1.0);
    assert_eq!(m.element(13).0, -2.0);
    assert_eq!(m.element(14).0, -3.0);
    assert_eq!(m.element(15).0, 1.0);
}

#[test]
fn vector_arithmetic_matches_componentwise() {
    let a = v(1.0, 2.0, 3.0, 4.0);
    let b = v(0.5, -1.0, 2.0, -4.0);
    let s = a.add(b);
    assert_eq!((s.x.0, s.y.0, s.z.0, s.w.0), (1.5, 1.0, 5.0, 0.0));
    let d = a.sub(b);
    assert_eq!((d.x.0, d.y.0, d.z.0, d.w.0), (0.5, 3.0, 1.0, 8.0));
    let m = a.mul_scalar(R(2.0));
    assert_eq!((m.x.0, m.y.0, m.z.0, m.w.0), (2.0, 4.0, 6.0, 8.0));
    let q = a.div(R(2.0));
    assert_eq!((q.x.0, q.y.0, q.z.0, q.w.0), (0.5, 1.0, 1.5, 2.0));
    let n = a.neg();
    assert_eq!((n.x.0, n.y.0, n.z.0, n.w.0), (-1.0, -2.0, -3.0, -4.0));
}

#[test]
fn assign_forms_match_their_pure_forms() {
    let a = v(1.0, 2.0, 3.0, 4.0);
    let b = v(0.5, -1.0, 2.0, -4.0);
    let mut c = a;
    c.add_assign(b);
    assert_eq!(c, a.add(b));
    let mut c = a;
    c.sub_assign(b);
    assert_eq!(c, a.sub(b));
    let mut c = a;
    c.mul_scalar_assign(R(3.0));
    assert_eq!(c, a.mul_scalar(R(3.0)));
    let mut c = a;
    c.div_assign(R(4.0));
    assert_eq!(c, a.div(R(4.0)));
    // the out-of-place forms left their operands alone
    assert_eq!(a, v(1.0, 2.0, 3.0, 4.0));
    assert_eq!(b, v(0.5, -1.0, 2.0, -4.0));
}

#[test]
fn matrix_elementwise_operators() {
    let a = sample_matrix();
    let b = Mat4::identity().translate(&v(1.0, 2.0, 3.0, 0.0));
    let sum = a.add(b);
    let diff = a.sub(b);
    let scaled = a.mul_scalar(R(2.0));
    for i in 0..16 {
        assert_eq!(sum.element(i).0, a.element(i).0 + b.element(i).0);
        assert_eq!(diff.element(i).0, a.element(i).0 - b.element(i).0);
        assert_eq!(scaled.element(i).0, a.element(i).0 * 2.0);
        let mut c = a;
        c.add_assign(b);
        assert_eq!(c.element(i).0, sum.element(i).0);
        let mut c = a;
        c.sub_assign(b);
        assert_eq!(c.element(i).0, diff.element(i).0);
        let mut c = a;
        c.mul_scalar_assign(R(2.0));
        assert_eq!(c.element(i).0, scaled.element(i).0);
    }
}

#[test]
fn product_carries_translation_through_scale() {
    let a = Mat4::identity().scale(v(2.0, 3.0, 4.0, 1.0));
    let b = Mat4::identity().translate(&v(1.0, 2.0, 3.0, 0.0));
    let c = a.mul(b);
    assert_eq!(c.element(12).0, 2.0);
    assert_eq!(c.element(13).0, 6.0);
    assert_eq!(c.element(14).0, 12.0);
    assert_eq!(c.element(15).0, 1.0);
    let mut d = a;
    d.mul_assign(b);
    assert_same_elements(&d, &c);
}

#[test]
fn rotate_composes_on_the_given_side() {
    let base = Mat4::identity().translate(&v(1.0, 2.0, 3.0, 0.0));
    let axis = v(0.0, 0.0, 1.0, 0.0);
    let angle = R(0.5);
    let rot = Mat4::rodrigues(axis, angle);
    let mut local = base;
    local.rotate(axis, angle);
    assert_same_elements(&local, &base.mul(rot));
    let mut world = base;
    world.rotate_local(axis, angle);
    assert_same_elements(&world, &rot.mul(base));
}

#[test]
fn basis_accessors_read_the_columns() {
    let m = sample_matrix();
    let x = m.x_vector();
    let y = m.y_vector();
    let z = m.z_vector();
    let p = m.position();
    for i in 0..4 {
        assert_eq!(x.index(i).0, m.element(i).0);
        assert_eq!(y.index(i).0, m.element(4 + i).0);
        assert_eq!(z.index(i).0, m.element(8 + i).0);
        assert_eq!(p.index(i).0, m.element(12 + i).0);
    }
}

#[test]
fn accessors_return_snapshots() {
    let m = sample_matrix();
    let mut p = m.position();
    p.set_component(0, R(99.0));
    assert_eq!(p.x.0, 99.0);
    // the matrix is untouched by writing to the snapshot
    assert_eq!(m.position().x.0, m.element(12).0);
}

#[test]
fn indexing_reads_and_writes_the_named_lanes() {
    let mut a = v(1.0, 2.0, 3.0, 4.0);
    assert_eq!(a.index(0).0, 1.0);
    assert_eq!(a.index(1).0, 2.0);
    assert_eq!(a.index(2).0, 3.0);
    assert_eq!(a.index(3).0, 4.0);
    a.set_component(2, R(7.5));
    assert_eq!(a.z.0, 7.5);
    assert_eq!(a.x.0, 1.0);
}

#[test]
fn zero_and_one_fill_the_lanes() {
    let z = Vec4::<R>::zero();
    assert_eq!((z.x.0, z.y.0, z.z.0, z.w.0), (0.0, 0.0, 0.0, 0.0));
    let o = Vec4::<R>::one();
    assert_eq!((o.x.0, o.y.0, o.z.0, o.w.0), (1.0, 1.0, 1.0, 1.0));
    let m = Mat4::<R>::zeroes();
    for i in 0..16 {
        assert_eq!(m.element(i).0, 0.0);
    }
}
