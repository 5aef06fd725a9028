use vstd::prelude::*;

verus! {

/// Quotient of `a` by a positive `b`, rounded toward zero.
pub open spec fn trunc_div(a: int, b: int) -> int {
    if a >= 0 {
        a / b
    } else {
        -((-a) / b)
    }
}

/// `r` is the square root of `n` rounded up.
pub open spec fn is_ceil_sqrt(r: int, n: int) -> bool {
    &&& r >= 0
    &&& r * r >= n
    &&& (r == 0 || (r - 1) * (r - 1) < n)
}

/// The square root of `n`, rounded up.
pub open spec fn ceil_sqrt_spec(n: int) -> int {
    choose|r: int| is_ceil_sqrt(r, n)
}

proof fn lemma_ceil_sqrt_unique(r1: int, r2: int, n: int)
    requires
        is_ceil_sqrt(r1, n),
        is_ceil_sqrt(r2, n),
    ensures
        r1 == r2,
{
    if r1 < r2 {
        assert((r2 - 1) * (r2 - 1) >= r1 * r1) by (nonlinear_arith)
            requires
                0 <= r1 <= r2 - 1,
        ;
    } else if r2 < r1 {
        assert((r1 - 1) * (r1 - 1) >= r2 * r2) by (nonlinear_arith)
            requires
                0 <= r2 <= r1 - 1,
        ;
    }
}

/// The square root of `n`, rounded up.
pub fn ceil_sqrt(n: u64) -> (r: u64)
    ensures
        is_ceil_sqrt(r as int, n as int),
        r == ceil_sqrt_spec(n as int),
        r <= 0x1_0000_0000,
        n > 0 ==> r > 0,
{
    if n == 0 {
        proof {
            lemma_ceil_sqrt_unique(0, ceil_sqrt_spec(0), 0);
        }
        return 0;
    }
    let mut lo: u64 = 0;
    let mut hi: u64 = 0x1_0000_0000;
    assert(hi * hi == 0x1_0000_0000_0000_0000);
    while hi - lo > 1
        invariant
            lo < hi <= 0x1_0000_0000,
            (lo as int) * (lo as int) < n,
            (hi as int) * (hi as int) >= n,
        decreases hi - lo,
    {
        let mid = lo + (hi - lo) / 2;
        assert((mid as int) * (mid as int) <= 0x1_0000_0000_0000_0000) by (nonlinear_arith)
            requires
                0 <= mid <= 0x1_0000_0000,
        ;
        if (mid as u128) * (mid as u128) >= n as u128 {
            hi = mid;
        } else {
            lo = mid;
        }
    }
    assert(lo == hi - 1);
    proof {
        lemma_ceil_sqrt_unique(hi as int, ceil_sqrt_spec(n as int), n as int);
    }
    hi
}

/// Computes `v * num / den` rounded toward zero.
pub fn scale(v: i64, num: i64, den: i64) -> (r: i64)
    requires
        den > 0,
        -0x4000_0000_0000_0000 <= v * num <= 0x4000_0000_0000_0000,
    ensures
        r == trunc_div(v * num, den as int),
{
    let p = v * num;
    if p >= 0 {
        ((p as u64) / (den as u64)) as i64
    } else {
        -((((-p) as u64) / (den as u64)) as i64)
    }
}

/// Rescaling a vector by `m` over a length at least its own gives a vector
/// of length at most `m`.
pub proof fn lemma_rescaled_within(dx: int, dy: int, s: int, m: int)
    requires
        s > 0,
        m >= 0,
        s * s >= dx * dx + dy * dy,
    ensures
        trunc_div(dx * m, s) * trunc_div(dx * m, s) + trunc_div(dy * m, s) * trunc_div(dy * m, s)
            <= m * m,
{
    let a = if dx >= 0 {
        dx
    } else {
        -dx
    };
    let b = if dy >= 0 {
        dy
    } else {
        -dy
    };
    let qa = (a * m) / s;
    let qb = (b * m) / s;
    assert(a * m >= 0) by (nonlinear_arith)
        requires
            a >= 0,
            m >= 0,
    ;
    assert(b * m >= 0) by (nonlinear_arith)
        requires
            b >= 0,
            m >= 0,
    ;
    assert(dx * m == if dx >= 0 {
        a * m
    } else {
        -(a * m)
    }) by (nonlinear_arith)
        requires
            a == (if dx >= 0 {
                dx
            } else {
                -dx
            }),
    ;
    assert(dy * m == if dy >= 0 {
        b * m
    } else {
        -(b * m)
    }) by (nonlinear_arith)
        requires
            b == (if dy >= 0 {
                dy
            } else {
                -dy
            }),
    ;
    assert(trunc_div(dx * m, s) * trunc_div(dx * m, s) == qa * qa) by (nonlinear_arith)
        requires
            trunc_div(dx * m, s) == qa || trunc_div(dx * m, s) == -qa,
    ;
    assert(trunc_div(dy * m, s) * trunc_div(dy * m, s) == qb * qb) by (nonlinear_arith)
        requires
            trunc_div(dy * m, s) == qb || trunc_div(dy * m, s) == -qb,
    ;
    assert(0 <= qa * s <= a * m) by (nonlinear_arith)
        requires
            s > 0,
            a * m >= 0,
            qa == (a * m) / s,
    ;
    assert(0 <= qb * s <= b * m) by (nonlinear_arith)
        requires
            s > 0,
            b * m >= 0,
            qb == (b * m) / s,
    ;
    assert((qa * qa) * (s * s) <= (a * a) * (m * m)) by (nonlinear_arith)
        requires
            0 <= qa * s <= a * m,
    ;
    assert((qb * qb) * (s * s) <= (b * b) * (m * m)) by (nonlinear_arith)
        requires
            0 <= qb * s <= b * m,
    ;
    assert(a * a == dx * dx && b * b == dy * dy) by (nonlinear_arith)
        requires
            a == dx || a == -dx,
            b == dy || b == -dy,
    ;
    assert((a * a + b * b) * (m * m) <= (s * s) * (m * m)) by (nonlinear_arith)
        requires
            a * a + b * b <= s * s,
    ;
    assert((a * a + b * b) * (m * m) == (a * a) * (m * m) + (b * b) * (m * m)) by (
    nonlinear_arith);
    assert(qa * qa + qb * qb <= m * m) by (nonlinear_arith)
        requires
            (qa * qa) * (s * s) + (qb * qb) * (s * s) <= (s * s) * (m * m),
            s > 0,
    ;
}

} // verus!
