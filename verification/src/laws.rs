use vstd::prelude::*;

verus! {

use crate::mat4::identity_s;
use crate::mat4::mul_s;
use crate::mat4::mul_vec_s;
use crate::mat4::position_s;
use crate::mat4::rodrigues_s;
use crate::mat4::translate_s;
use crate::mat4::transpose_s;
use crate::scalar::Scalar;
use crate::vec4::Vec4;

/// Transposing twice returns every element to its place, for any matrix
/// over any scalar: the transpose is an involution of the storage.
pub proof fn lemma_transpose_involutive<S: Scalar>(m: Seq<S>)
    requires
        m.len() == 16,
    ensures
        transpose_s(transpose_s(m)) == m,
{
    assert forall|i: int| 0 <= i < 16 implies #[trigger] transpose_s(transpose_s(m))[i]
        == m[i] by {
        let j = (i % 4) * 4 + i / 4;
        assert(transpose_s(transpose_s(m))[i] == transpose_s(m)[j]);
        assert(transpose_s(m)[j] == m[(j % 4) * 4 + j / 4]);
        assert((j % 4) * 4 + j / 4 == i);
    };
    assert(transpose_s(transpose_s(m)) =~= m);
}

/// A world-space translation moves the position by exactly the vector's
/// x, y and z, and leaves the w entry of the translation column untouched,
/// for any matrix over any scalar.
pub proof fn lemma_translate_position<S: Scalar>(m: Seq<S>, t: Vec4<S>)
    requires
        m.len() == 16,
    ensures
        position_s(translate_s(m, t)).x == position_s(m).add_v(t).x,
        position_s(translate_s(m, t)).y == position_s(m).add_v(t).y,
        position_s(translate_s(m, t)).z == position_s(m).add_v(t).z,
        position_s(translate_s(m, t)).w == position_s(m).w,
{
}

/// The unit facts of the wrapping `i64` arithmetic that the identity laws
/// lean on: multiplying by one or zero and adding zero behave as in the
/// untruncated integers.
proof fn lemma_wrap_unit(x: i64)
    ensures
        1i64.wrapping_mul(x) == x,
        x.wrapping_mul(1) == x,
        0i64.wrapping_mul(x) == 0,
        x.wrapping_mul(0) == 0,
        0i64.wrapping_add(x) == x,
        x.wrapping_add(0) == x,
{
    assert(1 * x == x) by (nonlinear_arith);
    assert(x * 1 == x) by (nonlinear_arith);
    assert(0 * x == 0) by (nonlinear_arith);
    assert(x * 0 == 0) by (nonlinear_arith);
    assert(vstd::wrapping::i64_specs::signed_crop(x as int) == x) by (nonlinear_arith)
        requires
            i64::MIN <= x <= i64::MAX,
    ;
}

/// Over the exact integer scalar the identity matrix is a left identity
/// of the product, for every matrix.
#[verifier::rlimit(50)]
pub proof fn lemma_identity_mul_left_int(m: Seq<i64>)
    requires
        m.len() == 16,
    ensures
        mul_s(identity_s::<i64>(), m) == m,
{
    assert forall|i: int| 0 <= i < 16 implies #[trigger] mul_s(identity_s::<i64>(), m)[i]
        == m[i] by {
        let col = i / 4;
        let row = i % 4;
        assert(i == col * 4 + row);
        assert(identity_s::<i64>()[row] == if row == 0 { 1i64 } else { 0i64 });
        assert(identity_s::<i64>()[4 + row] == if row == 1 { 1i64 } else { 0i64 });
        assert(identity_s::<i64>()[8 + row] == if row == 2 { 1i64 } else { 0i64 });
        assert(identity_s::<i64>()[12 + row] == if row == 3 { 1i64 } else { 0i64 });
        lemma_wrap_unit(m[col * 4]);
        lemma_wrap_unit(m[col * 4 + 1]);
        lemma_wrap_unit(m[col * 4 + 2]);
        lemma_wrap_unit(m[col * 4 + 3]);
    };
    assert(mul_s(identity_s::<i64>(), m) =~= m);
}

/// Over the exact integer scalar the identity matrix is a right identity
/// of the product, for every matrix.
#[verifier::rlimit(50)]
pub proof fn lemma_identity_mul_right_int(m: Seq<i64>)
    requires
        m.len() == 16,
    ensures
        mul_s(m, identity_s::<i64>()) == m,
{
    assert forall|i: int| 0 <= i < 16 implies #[trigger] mul_s(m, identity_s::<i64>())[i]
        == m[i] by {
        let col = i / 4;
        let row = i % 4;
        assert(i == col * 4 + row);
        assert(identity_s::<i64>()[col * 4] == if col == 0 { 1i64 } else { 0i64 });
        assert(identity_s::<i64>()[col * 4 + 1] == if col == 1 { 1i64 } else { 0i64 });
        assert(identity_s::<i64>()[col * 4 + 2] == if col == 2 { 1i64 } else { 0i64 });
        assert(identity_s::<i64>()[col * 4 + 3] == if col == 3 { 1i64 } else { 0i64 });
        lemma_wrap_unit(m[row]);
        lemma_wrap_unit(m[4 + row]);
        lemma_wrap_unit(m[8 + row]);
        lemma_wrap_unit(m[12 + row]);
    };
    assert(mul_s(m, identity_s::<i64>()) =~= m);
}

/// Over the exact integer scalar the identity matrix maps every
/// homogeneous column vector to itself.
pub proof fn lemma_identity_mul_vec_int(v: Vec4<i64>)
    ensures
        mul_vec_s(identity_s::<i64>(), v) == v,
{
    lemma_wrap_unit(v.x);
    lemma_wrap_unit(v.y);
    lemma_wrap_unit(v.z);
    lemma_wrap_unit(v.w);
}

/// `k` whole wraps of the 64-bit range.
spec fn wraps(k: int) -> int {
    0x1_0000_0000_0000_0000 * k
}

/// `v` differs from `x` by a whole number of wraps of the 64-bit range.
spec fn cong64(v: int, x: int) -> bool {
    exists|k: int| v == x + wraps(k)
}

proof fn lemma_cong_refl(x: int)
    ensures
        cong64(x, x),
{
    assert(x == x + wraps(0));
}

proof fn lemma_cong_trans(a: int, b: int, c: int)
    requires
        cong64(a, b),
        cong64(b, c),
    ensures
        cong64(a, c),
{
    let k1 = choose|k: int| a == b + wraps(k);
    let k2 = choose|k: int| b == c + wraps(k);
    assert(a == c + wraps(k1 + k2));
}

proof fn lemma_cong_add(a1: int, x1: int, a2: int, x2: int)
    requires
        cong64(a1, x1),
        cong64(a2, x2),
    ensures
        cong64(a1 + a2, x1 + x2),
{
    let k1 = choose|k: int| a1 == x1 + wraps(k);
    let k2 = choose|k: int| a2 == x2 + wraps(k);
    assert(a1 + a2 == (x1 + x2) + wraps(k1 + k2));
}

proof fn lemma_cong_sub(a1: int, x1: int, a2: int, x2: int)
    requires
        cong64(a1, x1),
        cong64(a2, x2),
    ensures
        cong64(a1 - a2, x1 - x2),
{
    let k1 = choose|k: int| a1 == x1 + wraps(k);
    let k2 = choose|k: int| a2 == x2 + wraps(k);
    assert(a1 - a2 == (x1 - x2) + wraps(k1 - k2));
}

proof fn lemma_cong_mul(a1: int, x1: int, a2: int, x2: int)
    requires
        cong64(a1, x1),
        cong64(a2, x2),
    ensures
        cong64(a1 * a2, x1 * x2),
{
    let k1 = choose|k: int| a1 == x1 + wraps(k);
    let k2 = choose|k: int| a2 == x2 + wraps(k);
    assert(a1 * a2 == x1 * x2 + wraps(x1 * k2 + k1 * x2 + wraps(k1 * k2))) by (nonlinear_arith)
        requires
            a1 == x1 + wraps(k1),
            a2 == x2 + wraps(k2),
    ;
}

/// Cropping into the signed 64-bit range only subtracts whole wraps.
proof fn lemma_crop_cong(x: int)
    ensures
        cong64(vstd::wrapping::i64_specs::signed_crop(x) as int, x),
{
    assert(x % 0x1_0000_0000_0000_0000 == x - 0x1_0000_0000_0000_0000 * (x
        / 0x1_0000_0000_0000_0000));
    if (x % 0x1_0000_0000_0000_0000) > (i64::MAX as int) {
        assert((x % 0x1_0000_0000_0000_0000) - 0x1_0000_0000_0000_0000 == x + wraps(
            0 - (x / 0x1_0000_0000_0000_0000) - 1,
        ));
    } else {
        assert(x % 0x1_0000_0000_0000_0000 == x + wraps(0 - (x / 0x1_0000_0000_0000_0000)));
    }
}

/// A value of the signed 64-bit range that is congruent to zero is zero.
proof fn lemma_cong_small_zero(v: int)
    requires
        cong64(v, 0),
        i64::MIN <= v <= i64::MAX,
    ensures
        v == 0,
{
    let k = choose|k: int| v == 0 + wraps(k);
    if k >= 1 {
        assert(wraps(k) >= wraps(1));
        assert(false);
    }
    if k <= -1 {
        assert(wraps(k) <= wraps(-1));
        assert(false);
    }
}

proof fn lemma_wmul_cong(x: i64, y: i64)
    ensures
        cong64(x.wrapping_mul(y) as int, (x as int) * (y as int)),
{
    lemma_crop_cong((x as int) * (y as int));
}

proof fn lemma_wadd_cong(x: i64, y: i64)
    ensures
        cong64(x.wrapping_add(y) as int, x as int + y as int),
{
    let s = x as int + y as int;
    if s > i64::MAX {
        assert(x.wrapping_add(y) == s + wraps(-1));
    } else if s < i64::MIN {
        assert(x.wrapping_add(y) == s + wraps(1));
    } else {
        assert(x.wrapping_add(y) == s + wraps(0));
    }
}

proof fn lemma_wsub_cong(x: i64, y: i64)
    ensures
        cong64(x.wrapping_sub(y) as int, x as int - y as int),
{
    let s = x as int - y as int;
    if s > i64::MAX {
        assert(x.wrapping_sub(y) == s + wraps(-1));
    } else if s < i64::MIN {
        assert(x.wrapping_sub(y) == s + wraps(1));
    } else {
        assert(x.wrapping_sub(y) == s + wraps(0));
    }
}

/// One lane of the cross product is congruent to its untruncated value.
proof fn lemma_cross_lane_cong(p: i64, q: i64, r: i64, s: i64)
    ensures
        cong64(
            p.wrapping_mul(q).wrapping_sub(r.wrapping_mul(s)) as int,
            (p as int) * (q as int) - (r as int) * (s as int),
        ),
{
    lemma_wmul_cong(p, q);
    lemma_wmul_cong(r, s);
    lemma_wsub_cong(p.wrapping_mul(q), r.wrapping_mul(s));
    lemma_cong_sub(
        p.wrapping_mul(q) as int,
        (p as int) * (q as int),
        r.wrapping_mul(s) as int,
        (r as int) * (s as int),
    );
    lemma_cong_trans(
        p.wrapping_mul(q).wrapping_sub(r.wrapping_mul(s)) as int,
        p.wrapping_mul(q) as int - r.wrapping_mul(s) as int,
        (p as int) * (q as int) - (r as int) * (s as int),
    );
}

/// The wrapped dot product of `c` against `v` is congruent to the
/// untruncated sum of products, when the last lane of `c` is zero.
proof fn lemma_dot_cong(c: Vec4<i64>, v: Vec4<i64>, ex: int, ey: int, ez: int)
    requires
        cong64(c.x as int, ex),
        cong64(c.y as int, ey),
        cong64(c.z as int, ez),
        c.w == 0,
    ensures
        cong64(c.dot_v(v) as int, ex * (v.x as int) + ey * (v.y as int) + ez * (v.z as int)),
{
    let t1 = c.x.wrapping_mul(v.x);
    let t2 = c.y.wrapping_mul(v.y);
    let t3 = c.z.wrapping_mul(v.z);
    lemma_wmul_cong(c.x, v.x);
    lemma_wmul_cong(c.y, v.y);
    lemma_wmul_cong(c.z, v.z);
    lemma_cong_refl(v.x as int);
    lemma_cong_refl(v.y as int);
    lemma_cong_refl(v.z as int);
    lemma_cong_mul(c.x as int, ex, v.x as int, v.x as int);
    lemma_cong_mul(c.y as int, ey, v.y as int, v.y as int);
    lemma_cong_mul(c.z as int, ez, v.z as int, v.z as int);
    lemma_cong_trans(t1 as int, (c.x as int) * (v.x as int), ex * (v.x as int));
    lemma_cong_trans(t2 as int, (c.y as int) * (v.y as int), ey * (v.y as int));
    lemma_cong_trans(t3 as int, (c.z as int) * (v.z as int), ez * (v.z as int));
    lemma_wrap_unit(v.w);
    let s1 = t1.wrapping_add(t2);
    lemma_wadd_cong(t1, t2);
    lemma_cong_add(t1 as int, ex * (v.x as int), t2 as int, ey * (v.y as int));
    lemma_cong_trans(s1 as int, t1 as int + t2 as int, ex * (v.x as int) + ey * (v.y as int));
    let s2 = s1.wrapping_add(t3);
    lemma_wadd_cong(s1, t3);
    lemma_cong_add(
        s1 as int,
        ex * (v.x as int) + ey * (v.y as int),
        t3 as int,
        ez * (v.z as int),
    );
    lemma_cong_trans(
        s2 as int,
        s1 as int + t3 as int,
        ex * (v.x as int) + ey * (v.y as int) + ez * (v.z as int),
    );
    assert(c.dot_v(v) == s2.wrapping_add(0i64.wrapping_mul(v.w)));
    lemma_wrap_unit(s2);
    assert(c.dot_v(v) == s2);
}

/// Over the exact integer scalar the cross product is orthogonal to both
/// of its factors, for every pair of vectors: the wrapped dot product of
/// `a.cross_v(b)` with `a` and with `b` is exactly zero.
pub proof fn lemma_cross_orthogonal_int(a: Vec4<i64>, b: Vec4<i64>)
    ensures
        a.cross_v(b).dot_v(a) == 0,
        a.cross_v(b).dot_v(b) == 0,
{
    let c = a.cross_v(b);
    let (x1, y1, z1) = (a.x as int, a.y as int, a.z as int);
    let (x2, y2, z2) = (b.x as int, b.y as int, b.z as int);
    let ex = y1 * z2 - z1 * y2;
    let ey = z1 * x2 - x1 * z2;
    let ez = x1 * y2 - y1 * x2;
    lemma_cross_lane_cong(a.y, b.z, a.z, b.y);
    lemma_cross_lane_cong(a.z, b.x, a.x, b.z);
    lemma_cross_lane_cong(a.x, b.y, a.y, b.x);
    lemma_dot_cong(c, a, ex, ey, ez);
    assert(ex * x1 + ey * y1 + ez * z1 == 0) by (nonlinear_arith)
        requires
            ex == y1 * z2 - z1 * y2,
            ey == z1 * x2 - x1 * z2,
            ez == x1 * y2 - y1 * x2,
    ;
    lemma_cong_small_zero(c.dot_v(a) as int);
    lemma_dot_cong(c, b, ex, ey, ez);
    assert(ex * x2 + ey * y2 + ez * z2 == 0) by (nonlinear_arith)
        requires
            ex == y1 * z2 - z1 * y2,
            ey == z1 * x2 - x1 * z2,
            ez == x1 * y2 - y1 * x2,
    ;
    lemma_cong_small_zero(c.dot_v(b) as int);
}

/// Over the exact integer scalar every representable angle is a whole
/// turn, so every Rodrigues matrix is the identity; in particular the
/// rotation by the zero angle is.
pub proof fn lemma_rodrigues_whole_turn_int(axis: Vec4<i64>, angle: i64)
    ensures
        rodrigues_s(axis, angle) == identity_s::<i64>(),
{
    assert forall|i: int| 0 <= i < 16 implies #[trigger] rodrigues_s(axis, angle)[i]
        == identity_s::<i64>()[i] by {
        lemma_wrap_unit(axis.x);
        lemma_wrap_unit(axis.y);
        lemma_wrap_unit(axis.z);
    };
    assert(rodrigues_s(axis, angle) =~= identity_s::<i64>());
}

} // verus!
