//! The analysis/synthesis window, in Q15 fixed point (32768 stands for 1.0).
//!
//! The window is the raised cosine `0.5 * (1 - cos(2*pi*n/(N-1)))`, computed
//! with integer arithmetic only: angles are scaled by 2^20 and the cosine is
//! a degree-ten polynomial evaluated over the first half period. Symmetry is
//! exact by construction — each entry is computed from its distance to the
//! nearer edge — and both ends are exactly zero, the properties the
//! constant-overlap-add reconstruction rests on.

use vstd::prelude::*;
use vstd::arithmetic::div_mod::lemma_div_is_ordered;
use vstd::arithmetic::mul::lemma_mul_upper_bound;

verus! {

/// 1.0 in the Q15 scale of the window values.
pub const Q15_ONE: u16 = 32768;

/// The internal angle scale: 2^20.
pub const ANGLE_ONE: u64 = 1048576;

/// Pi in the internal angle scale.
pub const PI_ANGLE: u64 = 3294199;

/// The distance from `n` to the nearer edge of a window of length `size`.
pub open spec fn spec_edge_distance(size: int, n: int) -> int {
    if n <= size - 1 - n {
        n
    } else {
        size - 1 - n
    }
}

/// The Q15 window value at symmetric position `nsym` of a window of length
/// `size`: zero at the edges, else the raised cosine evaluated by the
/// fixed-point polynomial, clamped into the Q15 range.
pub open spec fn spec_hann_q15(size: int, nsym: int) -> int {
    if size <= 1 {
        32768
    } else if nsym <= 0 {
        0
    } else {
        let d = size - 1;
        let theta = 6588398 * nsym / d;
        let u = theta * theta / 1048576;
        let c4 = 1048576 - u / 90;
        let c3 = 1048576 - u * c4 / 58720256;
        let c2 = 1048576 - u * c3 / 31457280;
        let c1 = 1048576 - u * c2 / 12582912;
        let sub = u * c1 / 2097152;
        let scaled = (sub / 2) * 32768 / 1048576;
        if scaled > 32768 {
            32768
        } else {
            scaled
        }
    }
}

/// The product of two bounded non-negative values, divided, is bounded by
/// the divided product of the bounds.
proof fn lemma_mul_div_bound(a: int, amax: int, b: int, bmax: int, d: int)
    requires
        0 <= a <= amax,
        0 <= b <= bmax,
        1 <= d,
    ensures
        0 <= a * b <= amax * bmax,
        0 <= a * b / d <= amax * bmax / d,
{
    lemma_mul_upper_bound(a, amax, b, bmax);
    assert(a * b >= 0) by (nonlinear_arith)
        requires
            a >= 0,
            b >= 0,
    ;
    lemma_div_is_ordered(a * b, amax * bmax, d);
    vstd::arithmetic::div_mod::lemma_div_is_ordered(0, a * b, d);
}

/// The window value at position `n` of a window of length `total_size`,
/// in Q15: zero at both edges, one for a degenerate window, and in between
/// the raised cosine of the distance to the nearer edge.
pub fn hann_window_value(n: usize, total_size: usize) -> (r: u16)
    requires
        n < total_size,
        total_size <= 32768,
    ensures
        r == spec_hann_q15(total_size as int, spec_edge_distance(total_size as int, n as int)),
        r <= 32768,
{
    if total_size <= 1 {
        return 32768;
    }
    let d_us: usize = total_size - 1;
    let nsym: usize = if n <= d_us - n {
        n
    } else {
        d_us - n
    };
    if nsym == 0 {
        return 0;
    }
    let s: u64 = ANGLE_ONE;
    let d: u64 = d_us as u64;
    let x: u64 = nsym as u64;

    // 2 * nsym <= d, so theta stays within the half period [0, pi].
    proof {
        assert(2 * 3294199 * x <= 3294199 * d) by (nonlinear_arith)
            requires
                2 * x <= d,
        ;
        assert(3294199 * d <= 3294199 * 32767) by (nonlinear_arith)
            requires
                d <= 32767,
        ;
    }
    let theta: u64 = 2 * PI_ANGLE * x / d;
    proof {
        lemma_div_is_ordered(2 * 3294199 * (x as int), 3294199 * (d as int), d as int);
        assert(3294199 * (d as int) / (d as int) == 3294199) by (nonlinear_arith)
            requires
                d >= 1,
        ;
        lemma_div_is_ordered(0, 2 * 3294199 * (x as int), d as int);
        assert(theta <= 3294199);
        assert(theta * theta <= 3294199 * 3294199) by (nonlinear_arith)
            requires
                0 <= theta <= 3294199,
        ;
    }
    let u: u64 = theta * theta / s;
    proof {
        lemma_mul_div_bound(theta as int, 3294199, theta as int, 3294199, 1048576);
        assert(u <= 10350000);
    }

    proof {
        lemma_div_is_ordered(u as int, 10350000, 90);
    }
    let c4: u64 = s - u / 90;
    proof {
        lemma_mul_div_bound(u as int, 10350000, c4 as int, 1048576, 58720256);
    }
    let c3: u64 = s - (u * c4) / (56 * s);
    proof {
        lemma_mul_div_bound(u as int, 10350000, c3 as int, 1048576, 31457280);
    }
    let c2: u64 = s - (u * c3) / (30 * s);
    proof {
        lemma_mul_div_bound(u as int, 10350000, c2 as int, 1048576, 12582912);
    }
    let c1: u64 = s - (u * c2) / (12 * s);
    proof {
        lemma_mul_div_bound(u as int, 10350000, c1 as int, 1048576, 2097152);
    }
    let sub: u64 = (u * c1) / (2 * s);
    let scaled: u64 = (sub / 2) * 32768 / s;
    if scaled > 32768 {
        32768
    } else {
        scaled as u16
    }
}

/// Build a Hann window of the given length in Q15: symmetric, zero at both
/// ends, and never above one.
pub fn create_hann_window(size: usize) -> (r: Vec<u16>)
    requires
        size <= 32768,
    ensures
        r@.len() == size,
        forall|i: int|
            0 <= i < size ==> r@[i] == spec_hann_q15(size as int, spec_edge_distance(size as int, i)),
        forall|i: int| 0 <= i < size ==> #[trigger] r@[i] == r@[size - 1 - i],
        forall|i: int| 0 <= i < size ==> r@[i] <= 32768,
        size >= 2 ==> r@[0] == 0 && r@[size - 1] == 0,
{
    let mut window: Vec<u16> = Vec::new();
    let mut i: usize = 0;
    while i < size
        invariant
            size <= 32768,
            i <= size,
            window@.len() == i,
            forall|j: int|
                0 <= j < i ==> window@[j] == spec_hann_q15(
                    size as int,
                    spec_edge_distance(size as int, j),
                ),
            forall|j: int| 0 <= j < i ==> window@[j] <= 32768,
        decreases size - i,
    {
        let w = hann_window_value(i, size);
        window.push(w);
        i += 1;
    }
    window
}

/// Convenience wrapper: the Hann window for any supported size.
pub fn get_hann_window(size: usize) -> (r: Vec<u16>)
    requires
        size <= 32768,
    ensures
        r@.len() == size,
        forall|i: int|
            0 <= i < size ==> r@[i] == spec_hann_q15(size as int, spec_edge_distance(size as int, i)),
        forall|i: int| 0 <= i < size ==> #[trigger] r@[i] == r@[size - 1 - i],
        forall|i: int| 0 <= i < size ==> r@[i] <= 32768,
        size >= 2 ==> r@[0] == 0 && r@[size - 1] == 0,
{
    create_hann_window(size)
}

} // verus!
