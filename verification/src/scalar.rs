use vstd::prelude::*;

verus! {

use vstd::arithmetic::div_mod::lemma_fundamental_div_mod;

/// The scalar field of the kernel.
///
/// Each arithmetic operation comes in two parts: a specification function
/// (`add_v`, `mul_v`, ...) naming its result, and an executable operation
/// whose contract says that it returns exactly that named value. The vector
/// and matrix contracts are stated over the names alone, so everything proved
/// about the kernel holds for any scalar whose operations meet their
/// contracts. This crate provides a verified instance for `i64`; a scalar
/// backed by floating point can be supplied by the application, outside the
/// verified boundary.
pub trait Scalar: Sized + Copy {
    /// The additive identity.
    spec fn zero_v() -> Self;

    /// The multiplicative identity.
    spec fn one_v() -> Self;

    spec fn add_v(self, other: Self) -> Self;

    spec fn sub_v(self, other: Self) -> Self;

    spec fn mul_v(self, other: Self) -> Self;

    spec fn div_v(self, other: Self) -> Self;

    spec fn neg_v(self) -> Self;

    spec fn sqrt_v(self) -> Self;

    spec fn sin_v(self) -> Self;

    spec fn cos_v(self) -> Self;

    spec fn tan_v(self) -> Self;

    fn zero() -> (r: Self)
        ensures
            r == Self::zero_v(),
    ;

    fn one() -> (r: Self)
        ensures
            r == Self::one_v(),
    ;

    fn add(self, other: Self) -> (r: Self)
        ensures
            r == self.add_v(other),
    ;

    fn sub(self, other: Self) -> (r: Self)
        ensures
            r == self.sub_v(other),
    ;

    fn mul(self, other: Self) -> (r: Self)
        ensures
            r == self.mul_v(other),
    ;

    fn div(self, other: Self) -> (r: Self)
        ensures
            r == self.div_v(other),
    ;

    fn neg(self) -> (r: Self)
        ensures
            r == self.neg_v(),
    ;

    fn sqrt(self) -> (r: Self)
        ensures
            r == self.sqrt_v(),
    ;

    fn sin(self) -> (r: Self)
        ensures
            r == self.sin_v(),
    ;

    fn cos(self) -> (r: Self)
        ensures
            r == self.cos_v(),
    ;

    fn tan(self) -> (r: Self)
        ensures
            r == self.tan_v(),
    ;
}

/// The floor of the square root of `n`.
pub open spec fn isqrt(n: nat) -> nat
    decreases n,
{
    if n == 0 {
        0
    } else {
        let r = isqrt((n - 1) as nat);
        if (r + 1) * (r + 1) <= n {
            r + 1
        } else {
            r
        }
    }
}

pub proof fn lemma_isqrt_bracket(n: nat)
    ensures
        isqrt(n) * isqrt(n) <= n,
        n < (isqrt(n) + 1) * (isqrt(n) + 1),
    decreases n,
{
    if n == 0 {
        assert(isqrt(0) == 0);
        assert(n < (isqrt(n) + 1) * (isqrt(n) + 1)) by (nonlinear_arith)
            requires
                n == 0,
                isqrt(n) == 0,
        ;
    } else {
        lemma_isqrt_bracket((n - 1) as nat);
        let r = isqrt((n - 1) as nat);
        if (r + 1) * (r + 1) <= n {
            assert(isqrt(n) == r + 1);
            assert(n <= (r + 1) * (r + 1));
            assert((r + 1) * (r + 1) < (r + 2) * (r + 2)) by (nonlinear_arith);
            assert(isqrt(n) + 1 == r + 2);
            assert(n < (r + 2) * (r + 2));
        } else {
            assert(isqrt(n) == r);
        }
    }
}


pub proof fn lemma_isqrt_unique(n: nat, r: nat)
    requires
        r * r <= n,
        n < (r + 1) * (r + 1),
    ensures
        r == isqrt(n),
{
    lemma_isqrt_bracket(n);
    let q = isqrt(n);
    if r < q {
        assert((r + 1) * (r + 1) <= q * q) by (nonlinear_arith)
            requires
                r < q,
        ;
        assert(false);
    }
    if q < r {
        assert((q + 1) * (q + 1) <= r * r) by (nonlinear_arith)
            requires
                q < r,
        ;
        assert(false);
    }
}

/// The exact integer scalar: arithmetic wraps modulo 2^64 as `i64` does,
/// division by zero yields zero, the square root is the floor square root,
/// and the trigonometric operations treat every representable angle as a
/// whole turn (cosine one, sine and tangent zero).
impl Scalar for i64 {
    open spec fn zero_v() -> i64 {
        0
    }

    open spec fn one_v() -> i64 {
        1
    }

    open spec fn add_v(self, other: i64) -> i64 {
        self.wrapping_add(other)
    }

    open spec fn sub_v(self, other: i64) -> i64 {
        self.wrapping_sub(other)
    }

    open spec fn mul_v(self, other: i64) -> i64 {
        self.wrapping_mul(other)
    }

    open spec fn div_v(self, other: i64) -> i64 {
        match self.checked_div(other) {
            Some(q) => q,
            None => if other == 0 { 0 } else { i64::MIN },
        }
    }

    open spec fn neg_v(self) -> i64 {
        0i64.wrapping_sub(self)
    }

    open spec fn sqrt_v(self) -> i64 {
        if self <= 0 {
            0
        } else {
            isqrt(self as nat) as i64
        }
    }

    open spec fn sin_v(self) -> i64 {
        0
    }

    open spec fn cos_v(self) -> i64 {
        1
    }

    open spec fn tan_v(self) -> i64 {
        0
    }

    fn zero() -> i64 {
        0
    }

    fn one() -> i64 {
        1
    }

    fn add(self, other: i64) -> i64 {
        self.wrapping_add(other)
    }

    fn sub(self, other: i64) -> i64 {
        self.wrapping_sub(other)
    }

    fn mul(self, other: i64) -> i64 {
        self.wrapping_mul(other)
    }

    fn div(self, other: i64) -> i64 {
        match self.checked_div(other) {
            Some(q) => q,
            None => if other == 0 { 0 } else { i64::MIN },
        }
    }

    fn neg(self) -> i64 {
        0i64.wrapping_sub(self)
    }

    fn sqrt(self) -> i64 {
        if self <= 0 {
            0
        } else {
            let mut root: i64 = 0;
            while root + 1 <= self / (root + 1)
                invariant
                    0 < self,
                    0 <= root,
                    root <= 3_037_000_499i64,
                    root * root <= self,
                decreases self - root,
            {
                proof {
                    let d = (root + 1) as int;
                    let s = self as int;
                    lemma_fundamental_div_mod(s, d);
                    assert(d * d <= d * (s / d)) by (nonlinear_arith)
                        requires
                            0 < d,
                            d <= s / d,
                    ;
                    assert(d * d <= s);
                    if d > 3_037_000_499 {
                        assert(d * d >= 3_037_000_500 * 3_037_000_500) by (nonlinear_arith)
                            requires
                                d >= 3_037_000_500,
                        ;
                        assert(false);
                    }
                }
                root = root + 1;
            }
            proof {
                let d = (root + 1) as int;
                let s = self as int;
                lemma_fundamental_div_mod(s, d);
                assert(d * (s / d) <= d * (d - 1)) by (nonlinear_arith)
                    requires
                        0 < d,
                        s / d <= d - 1,
                ;
                assert(d * (d - 1) == d * d - d) by (nonlinear_arith);
                assert(s < d * d);
                lemma_isqrt_unique(self as nat, root as nat);
            }
            root
        }
    }

    fn sin(self) -> i64 {
        0
    }

    fn cos(self) -> i64 {
        1
    }

    fn tan(self) -> i64 {
        0
    }
}

} // verus!
