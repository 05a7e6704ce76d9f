//! The bounce curve: a parabolic arc over the frames of one bounce.

use vstd::prelude::*;

verus! {

/// The vertical offset at `frame` of a bounce of `max_frames` frames.
///
/// With `t = frame / max_frames` this is `2 * (1 - t) * t * max_velocity^2`,
/// rounded down; the peak `max_velocity^2 / 2` lies at the middle frame. A
/// bounce without frames has no offset.
pub open spec fn bounce_velocity(max_velocity: int, frame: int, max_frames: int) -> int {
    if max_frames <= 0 {
        0
    } else {
        (2 * (max_frames - frame) * frame * max_velocity * max_velocity) / (max_frames
            * max_frames)
    }
}

/// `4 (m - f) f <= m^2`, since the difference is `(m - 2f)^2`.
proof fn lemma_arc_product_bound(m: int, f: int)
    ensures
        4 * ((m - f) * f) <= m * m,
{
    assert(m * m - 4 * ((m - f) * f) == (m - 2 * f) * (m - 2 * f)) by (nonlinear_arith);
    assert((m - 2 * f) * (m - 2 * f) >= 0) by (nonlinear_arith);
}

/// For integer frames the product `(m - f) f` peaks at `f == m / 2`.
proof fn lemma_arc_product_peak(m: int, f: int)
    requires
        0 <= f <= m,
    ensures
        (m - f) * f <= (m - m / 2) * (m / 2),
{
    let h = m / 2;
    assert((m - h) * h - (m - f) * f == (f - h) * (f - (m - h))) by (nonlinear_arith);
    if m == 2 * h {
        assert((f - h) * (f - h) >= 0) by (nonlinear_arith);
    } else {
        assert(m == 2 * h + 1);
        assert((f - h) * (f - h - 1) >= 0) by (nonlinear_arith)
            requires
                f <= h || f >= h + 1,
        ;
    }
}

/// The offset of a bounce never exceeds `max_velocity^2 / 2`.
pub proof fn lemma_velocity_bound(mv: int, f: int, m: int)
    requires
        0 <= f <= m,
        0 < m,
    ensures
        0 <= bounce_velocity(mv, f, m) <= mv * mv / 2,
{
    lemma_arc_product_bound(m, f);
    let p = (m - f) * f;
    let sq = mv * mv;
    assert(p >= 0) by (nonlinear_arith)
        requires
            0 <= f <= m,
            p == (m - f) * f,
    ;
    assert(sq >= 0) by (nonlinear_arith)
        requires
            sq == mv * mv,
    ;
    assert(2 * (m - f) * f * mv * mv == 2 * p * sq) by (nonlinear_arith)
        requires
            p == (m - f) * f,
            sq == mv * mv,
    ;
    assert(2 * p * sq * 2 <= m * m * sq) by (nonlinear_arith)
        requires
            4 * p <= m * m,
            sq >= 0,
    ;
    let d = m * m;
    assert(d > 0) by (nonlinear_arith)
        requires
            m > 0,
            d == m * m,
    ;
    let q = (2 * p * sq) / d;
    assert(q >= 0) by (nonlinear_arith)
        requires
            p >= 0,
            sq >= 0,
            d > 0,
            q == (2 * p * sq) / d,
    ;
    assert(q * 2 <= sq) by (nonlinear_arith)
        requires
            2 * p * sq * 2 <= d * sq,
            d > 0,
            q == (2 * p * sq) / d,
            sq >= 0,
            p >= 0,
    ;
}

/// The first frame of a bounce has no offset.
pub proof fn lemma_velocity_zero_at_start(max_velocity: int, max_frames: int)
    ensures
        bounce_velocity(max_velocity, 0, max_frames) == 0,
{
    assert(2 * (max_frames - 0) * 0 * max_velocity * max_velocity == 0) by (nonlinear_arith);
    if max_frames > 0 {
        assert(0int / (max_frames * max_frames) == 0) by (nonlinear_arith)
            requires
                max_frames > 0,
        ;
    }
}

/// The last frame of a bounce has no offset.
pub proof fn lemma_velocity_zero_at_end(max_velocity: int, max_frames: int)
    ensures
        bounce_velocity(max_velocity, max_frames, max_frames) == 0,
{
    assert(2 * (max_frames - max_frames) * max_frames * max_velocity * max_velocity == 0)
        by (nonlinear_arith);
    if max_frames > 0 {
        assert(0int / (max_frames * max_frames) == 0) by (nonlinear_arith)
            requires
                max_frames > 0,
        ;
    }
}

/// No frame of a bounce is higher than its middle frame `max_frames / 2`.
pub proof fn lemma_velocity_peaks_at_middle(max_velocity: int, frame: int, max_frames: int)
    requires
        0 <= frame <= max_frames,
    ensures
        bounce_velocity(max_velocity, frame, max_frames) <= bounce_velocity(
            max_velocity,
            max_frames / 2,
            max_frames,
        ),
{
    if max_frames > 0 {
        let m = max_frames;
        let h = m / 2;
        lemma_arc_product_peak(m, frame);
        let sq = max_velocity * max_velocity;
        assert(sq >= 0) by (nonlinear_arith)
            requires
                sq == max_velocity * max_velocity,
        ;
        let a = 2 * (m - frame) * frame * max_velocity * max_velocity;
        let b = 2 * (m - h) * h * max_velocity * max_velocity;
        assert(a == 2 * ((m - frame) * frame) * sq) by (nonlinear_arith)
            requires
                sq == max_velocity * max_velocity,
                a == 2 * (m - frame) * frame * max_velocity * max_velocity,
        ;
        assert(b == 2 * ((m - h) * h) * sq) by (nonlinear_arith)
            requires
                sq == max_velocity * max_velocity,
                b == 2 * (m - h) * h * max_velocity * max_velocity,
        ;
        assert(a <= b) by (nonlinear_arith)
            requires
                a == 2 * ((m - frame) * frame) * sq,
                b == 2 * ((m - h) * h) * sq,
                (m - frame) * frame <= (m - h) * h,
                sq >= 0,
        ;
        let d = m * m;
        assert(d > 0) by (nonlinear_arith)
            requires
                m > 0,
                d == m * m,
        ;
        assert(a / d <= b / d) by (nonlinear_arith)
            requires
                a <= b,
                d > 0,
        ;
    }
}

/// Computes the bounce offset at `frame` of a bounce of `max_frames` frames
/// whose peak speed is `max_velocity`.
pub fn interpolate_velocity(max_velocity: u32, frame: u32, max_frames: u32) -> (v: u64)
    requires
        frame <= max_frames,
    ensures
        v == bounce_velocity(max_velocity as int, frame as int, max_frames as int),
{
    if max_frames == 0 {
        return 0;
    }
    let m = max_frames as u128;
    let f = frame as u128;
    let mv = max_velocity as u128;
    proof {
        lemma_arc_product_bound(m as int, f as int);
        lemma_velocity_bound(mv as int, f as int, m as int);
        assert((m - f) * f <= 0x4000_0000_0000_0000) by (nonlinear_arith)
            requires
                4 * ((m - f) * f) <= m * m,
                m < 0x1_0000_0000,
        ;
        assert(mv * mv < 0x1_0000_0000_0000_0000) by (nonlinear_arith)
            requires
                mv < 0x1_0000_0000,
        ;
    }
    let arc = 2 * ((m - f) * f);
    assert(arc * mv <= 0x8000_0000_0000_0000 * 0x1_0000_0000) by (nonlinear_arith)
        requires
            arc <= 0x8000_0000_0000_0000,
            mv < 0x1_0000_0000,
    ;
    let step = arc * mv;
    assert(step * mv <= 0x8000_0000_0000_0000 * 0x1_0000_0000 * 0x1_0000_0000) by (nonlinear_arith)
        requires
            step <= 0x8000_0000_0000_0000 * 0x1_0000_0000,
            mv < 0x1_0000_0000,
    ;
    let num = step * mv;
    assert(num == 2 * (m - f) * f * mv * mv) by (nonlinear_arith)
        requires
            num == step * mv,
            step == arc * mv,
            arc == 2 * ((m - f) * f),
    ;
    assert(0 < m * m < 0x1_0000_0000_0000_0000) by (nonlinear_arith)
        requires
            0 < m < 0x1_0000_0000,
    ;
    let v = num / (m * m);
    assert(v <= mv * mv / 2);
    v as u64
}

} // verus!
