use vstd::prelude::*;

verus! {

/// Fixed-point full scale: the `i32` value standing for amplitude `1.0`.
pub const SAMPLE_SCALE: i32 = 10000;

/// A sample whose magnitude exceeds this counts as active (`0.01` full scale).
pub const ACTIVE_SAMPLE_THRESHOLD: i32 = 100;

/// Truncating integer division (rounds toward zero), for a positive divisor.
pub open spec fn div_trunc(a: int, b: int) -> int
    recommends
        b > 0,
{
    if a >= 0 {
        a / b
    } else {
        -((-a) / b)
    }
}

/// The magnitude of `v`.
pub open spec fn abs_val(v: int) -> int {
    if v >= 0 {
        v
    } else {
        -v
    }
}

/// The largest `r` with `r * r <= x`.
pub open spec fn sqrt_floor(x: nat) -> nat
    decreases x,
{
    if x == 0 {
        0
    } else {
        let r = sqrt_floor((x - 1) as nat);
        if (r + 1) * (r + 1) <= x {
            r + 1
        } else {
            r
        }
    }
}

pub proof fn lemma_sqrt_floor(x: nat)
    ensures
        sqrt_floor(x) * sqrt_floor(x) <= x,
        x < (sqrt_floor(x) + 1) * (sqrt_floor(x) + 1),
    decreases x,
{
    if x == 0 {
        assert(sqrt_floor(0) == 0);
        assert(x < (sqrt_floor(x) + 1) * (sqrt_floor(x) + 1)) by (nonlinear_arith)
            requires
                x == 0,
                sqrt_floor(x) == 0,
        ;
        assert(sqrt_floor(x) * sqrt_floor(x) <= x);
    } else {
        lemma_sqrt_floor((x - 1) as nat);
        let r = sqrt_floor((x - 1) as nat);
        if (r + 1) * (r + 1) <= x {
            assert(sqrt_floor(x) == r + 1);
            assert((r + 2) * (r + 2) > x) by (nonlinear_arith)
                requires
                    x - 1 < (r + 1) * (r + 1),
                    (r + 1) * (r + 1) <= x,
                    r >= 0,
            ;
            assert(x < (sqrt_floor(x) + 1) * (sqrt_floor(x) + 1));
            assert(sqrt_floor(x) * sqrt_floor(x) <= x);
        } else {
            assert(sqrt_floor(x) == r);
            assert(x < (sqrt_floor(x) + 1) * (sqrt_floor(x) + 1));
            assert(sqrt_floor(x) * sqrt_floor(x) <= x);
        }
    }
}

pub proof fn lemma_sqrt_floor_unique(x: nat, r: nat)
    requires
        r * r <= x,
        x < (r + 1) * (r + 1),
    ensures
        r == sqrt_floor(x),
{
    lemma_sqrt_floor(x);
    let s = sqrt_floor(x);
    if r < s {
        assert((r + 1) * (r + 1) <= s * s) by (nonlinear_arith)
            requires
                r + 1 <= s,
        ;
    }
    if s < r {
        assert((s + 1) * (s + 1) <= r * r) by (nonlinear_arith)
            requires
                s + 1 <= r,
        ;
    }
}

/// The integer square root, rounded down.
pub fn isqrt(x: u64) -> (r: u64)
    requires
        x < 0x1_0000_0000,
    ensures
        r == sqrt_floor(x as nat),
        r * r <= x < (r + 1) * (r + 1),
{
    let mut lo: u64 = 0;
    let mut hi: u64 = 0x1_0000;
    while lo + 1 < hi
        invariant
            lo < hi <= 0x1_0000,
            lo * lo <= x,
            x < hi * hi,
        decreases hi - lo,
    {
        let mid = lo + (hi - lo) / 2;
        assert(mid * mid <= 0x1_0000 * 0x1_0000) by (nonlinear_arith)
            requires
                0 <= mid <= 0x1_0000,
        ;
        if mid * mid <= x {
            lo = mid;
        } else {
            hi = mid;
        }
    }
    proof {
        lemma_sqrt_floor_unique(x as nat, lo as nat);
    }
    lo
}

/// Fixed-point value of a signed 16-bit sample: `s * 10000 / 32767`,
/// truncated toward zero.
pub open spec fn sample_from_i16_spec(s: int) -> int {
    div_trunc(s * 10000, 32767)
}

/// Converts a signed 16-bit sample to fixed point, scaling full range
/// (`32767`) to full scale.
pub fn sample_from_i16(s: i16) -> (r: i32)
    ensures
        r == sample_from_i16_spec(s as int),
        -SAMPLE_SCALE <= r <= SAMPLE_SCALE,
{
    if s >= 0 {
        let v: u32 = (s as u32) * 10000 / 32767;
        assert(v <= 10000) by (nonlinear_arith)
            requires
                v == (s as u32) * 10000 / 32767,
                0 <= s <= 32767,
        ;
        v as i32
    } else {
        let m: u32 = ((-(s as i32)) as u32) * 10000 / 32767;
        assert(m <= 10000) by (nonlinear_arith)
            requires
                m == ((-(s as i32)) as u32) * 10000 / 32767,
                -32768 <= s < 0,
        ;
        -(m as i32)
    }
}

/// Fixed-point value of an unsigned 16-bit sample: `(s - 32768) * 10000 /
/// 32768`, truncated toward zero.
pub open spec fn sample_from_u16_spec(s: int) -> int {
    div_trunc((s - 32768) * 10000, 32768)
}

/// Converts an unsigned 16-bit sample to fixed point, mapping the midpoint
/// (`32768`) to zero.
pub fn sample_from_u16(s: u16) -> (r: i32)
    ensures
        r == sample_from_u16_spec(s as int),
        -SAMPLE_SCALE <= r <= SAMPLE_SCALE,
{
    if s >= 32768 {
        let v: u32 = ((s - 32768) as u32) * 10000 / 32768;
        assert(v <= 10000) by (nonlinear_arith)
            requires
                v == ((s - 32768) as u32) * 10000 / 32768,
                32768 <= s <= 65535,
        ;
        v as i32
    } else {
        let m: u32 = (32768u32 - (s as u32)) * 10000 / 32768;
        assert(m <= 10000) by (nonlinear_arith)
            requires
                m == (32768u32 - (s as u32)) * 10000 / 32768,
                0 <= s < 32768,
        ;
        -(m as i32)
    }
}

/// `s` clamped to `[-SAMPLE_SCALE, SAMPLE_SCALE]`.
pub open spec fn clamp_sample_spec(s: int) -> int {
    if s > SAMPLE_SCALE as int {
        SAMPLE_SCALE as int
    } else if s < -(SAMPLE_SCALE as int) {
        -(SAMPLE_SCALE as int)
    } else {
        s
    }
}

/// Clamps a sample to full scale.
pub fn clamp_sample(s: i32) -> (r: i32)
    ensures
        r == clamp_sample_spec(s as int),
{
    if s > SAMPLE_SCALE {
        SAMPLE_SCALE
    } else if s < -SAMPLE_SCALE {
        -SAMPLE_SCALE
    } else {
        s
    }
}

/// Every sample of `s` lies within full scale.
pub open spec fn in_range(s: Seq<i32>) -> bool {
    forall|i: int| 0 <= i < s.len() ==> -10000 <= #[trigger] s[i] <= 10000
}

/// The sum of the squares of the samples.
pub open spec fn sum_squares(s: Seq<i32>) -> int
    decreases s.len(),
{
    if s.len() == 0 {
        0
    } else {
        sum_squares(s.drop_last()) + s.last() * s.last()
    }
}

/// How many samples are active (magnitude above `ACTIVE_SAMPLE_THRESHOLD`).
pub open spec fn active_count(s: Seq<i32>) -> int
    decreases s.len(),
{
    if s.len() == 0 {
        0
    } else {
        active_count(s.drop_last()) + if abs_val(s.last() as int) > ACTIVE_SAMPLE_THRESHOLD as int {
            1int
        } else {
            0int
        }
    }
}

/// The largest sample magnitude.
pub open spec fn peak_abs(s: Seq<i32>) -> int
    decreases s.len(),
{
    if s.len() == 0 {
        0
    } else {
        let p = peak_abs(s.drop_last());
        if abs_val(s.last() as int) > p {
            abs_val(s.last() as int)
        } else {
            p
        }
    }
}

/// The mean of the squared samples (zero for an empty signal).
pub open spec fn mean_square(s: Seq<i32>) -> int {
    if s.len() == 0 {
        0
    } else {
        sum_squares(s) / s.len() as int
    }
}

pub proof fn lemma_sum_squares_bounds(s: Seq<i32>)
    requires
        in_range(s),
    ensures
        0 <= sum_squares(s) <= s.len() * 100_000_000,
    decreases s.len(),
{
    if s.len() > 0 {
        assert(in_range(s.drop_last()));
        lemma_sum_squares_bounds(s.drop_last());
        let v = s.last() as int;
        assert(0 <= v * v <= 100_000_000) by (nonlinear_arith)
            requires
                -10000 <= v <= 10000,
        ;
    }
}

pub proof fn lemma_active_count_bounds(s: Seq<i32>)
    ensures
        0 <= active_count(s) <= s.len(),
    decreases s.len(),
{
    if s.len() > 0 {
        lemma_active_count_bounds(s.drop_last());
    }
}

pub proof fn lemma_peak_abs_bounds(s: Seq<i32>)
    requires
        in_range(s),
    ensures
        0 <= peak_abs(s) <= 10000,
    decreases s.len(),
{
    if s.len() > 0 {
        assert(in_range(s.drop_last()));
        lemma_peak_abs_bounds(s.drop_last());
    }
}

/// Aggregate signal statistics, all in fixed point: `rms` and `peak` on the
/// sample scale, `active_ratio` in ten-thousandths of the signal length.
#[derive(Clone, Copy, Debug, PartialEq, Eq, Structural)]
pub struct CaptureSignalStats {
    pub rms: u32,
    pub peak: u32,
    pub active_ratio: u32,
}

/// The statistics of a signal: root-mean-square amplitude (rounded down),
/// peak magnitude, and the share of active samples.
pub open spec fn stats_of(s: Seq<i32>) -> CaptureSignalStats {
    if s.len() == 0 {
        CaptureSignalStats { rms: 0, peak: 0, active_ratio: 0 }
    } else {
        CaptureSignalStats {
            rms: sqrt_floor(mean_square(s) as nat) as u32,
            peak: peak_abs(s) as u32,
            active_ratio: (active_count(s) * 10000 / s.len() as int) as u32,
        }
    }
}

/// Measures the signal: RMS energy, peak magnitude and active-sample ratio.
pub fn analyze_signal(samples: &Vec<i32>) -> (r: CaptureSignalStats)
    requires
        in_range(samples@),
        samples@.len() <= 0x4000_0000,
    ensures
        r == stats_of(samples@),
{
    if samples.len() == 0 {
        return CaptureSignalStats { rms: 0, peak: 0, active_ratio: 0 };
    }

    let n = samples.len();
    let mut sum_sq: u64 = 0;
    let mut active: u64 = 0;
    let mut peak: u32 = 0;
    let mut i: usize = 0;
    while i < n
        invariant
            n == samples@.len() <= 0x4000_0000,
            0 <= i <= n,
            in_range(samples@),
            sum_sq == sum_squares(samples@.subrange(0, i as int)),
            sum_sq <= (i as int) * 100_000_000,
            active == active_count(samples@.subrange(0, i as int)),
            active <= i,
            peak == peak_abs(samples@.subrange(0, i as int)),
            peak <= 10000,
        decreases n - i,
    {
        let s = samples[i];
        assert(-10000 <= samples@[i as int] <= 10000);
        let a: u32 = if s >= 0 {
            s as u32
        } else {
            (-s) as u32
        };
        proof {
            let pre = samples@.subrange(0, i as int);
            let post = samples@.subrange(0, i as int + 1);
            assert(post.drop_last() =~= pre);
            assert(post.last() == samples@[i as int]);
            assert((a as int) * (a as int) <= 100_000_000) by (nonlinear_arith)
                requires
                    0 <= a <= 10000,
            ;
            assert((a as int) * (a as int) == (samples@[i as int] as int) * (
            samples@[i as int] as int)) by (nonlinear_arith)
                requires
                    a == abs_val(samples@[i as int] as int),
            ;
        }
        sum_sq = sum_sq + (a as u64) * (a as u64);
        if a > ACTIVE_SAMPLE_THRESHOLD as u32 {
            active = active + 1;
        }
        if a > peak {
            peak = a;
        }
        i = i + 1;
    }
    proof {
        assert(samples@.subrange(0, n as int) =~= samples@);
    }
    let mean: u64 = sum_sq / (n as u64);
    proof {
        assert(mean <= 100_000_000) by (nonlinear_arith)
            requires
                n > 0,
                sum_sq <= (n as int) * 100_000_000,
                mean == sum_sq as int / n as int,
        ;
    }
    let rms = isqrt(mean);
    proof {
        if rms > 10000 {
            assert(10001 * 10001 <= rms * rms) by (nonlinear_arith)
                requires
                    10001 <= rms,
            ;
        }
    }
    let ar: u64 = active * 10000 / (n as u64);
    proof {
        assert(ar <= 10000) by (nonlinear_arith)
            requires
                n > 0,
                active <= n,
                ar == (active as int) * 10000 / (n as int),
        ;
    }
    CaptureSignalStats { rms: rms as u32, peak, active_ratio: ar as u32 }
}

/// `s` with every sample clamped to full scale.
pub open spec fn clamp_all(s: Seq<i32>) -> Seq<i32> {
    s.map_values(|v: i32| clamp_sample_spec(v as int) as i32)
}

/// The automatic-gain multiplier, in hundredths, chosen for a clamped signal.
///
/// A quiet-but-not-silent signal (RMS strictly between `5` and `350`, that is
/// between 0.0005 and 0.035 of full scale) is scaled toward a target RMS of
/// `500` (0.05 of full scale), with the gain clamped to `[1.0, 12.0]`; any
/// other signal keeps unit gain.
pub open spec fn gain_centi_of(c: Seq<i32>) -> int {
    if c.len() == 0 {
        100
    } else {
        let rms = sqrt_floor(mean_square(c) as nat) as int;
        if 5 < rms && rms < 350 {
            let g = 50000int / rms;
            if g > 1200 {
                1200
            } else if g < 100 {
                100
            } else {
                g
            }
        } else {
            100
        }
    }
}

/// One sample scaled by a gain in hundredths, then clamped to full scale.
pub open spec fn scale_sample_spec(v: int, g: int) -> int {
    clamp_sample_spec(div_trunc(v * g, 100))
}

/// A clamped signal with its chosen gain applied, when that gain exceeds the
/// `1.05` threshold; the small threshold avoids amplifying noise-floor
/// captures.
pub open spec fn gained(c: Seq<i32>) -> Seq<i32> {
    let g = gain_centi_of(c);
    if g > 105 {
        c.map_values(|v: i32| scale_sample_spec(v as int, g) as i32)
    } else {
        c
    }
}

/// What preprocessing produces: every sample clamped to full scale, then the
/// automatic gain applied.
pub open spec fn preprocess_spec(s: Seq<i32>) -> Seq<i32> {
    gained(clamp_all(s))
}

/// The mean of the squared samples of a clamped signal.
fn mean_square_of(samples: &Vec<i32>) -> (r: u64)
    requires
        in_range(samples@),
        samples@.len() <= 0x4000_0000,
    ensures
        r == mean_square(samples@),
        r <= 100_000_000,
{
    let n = samples.len();
    if n == 0 {
        return 0;
    }
    let mut sum_sq: u64 = 0;
    let mut i: usize = 0;
    while i < n
        invariant
            n == samples@.len() <= 0x4000_0000,
            n > 0,
            0 <= i <= n,
            in_range(samples@),
            sum_sq == sum_squares(samples@.subrange(0, i as int)),
            sum_sq <= (i as int) * 100_000_000,
        decreases n - i,
    {
        let s = samples[i];
        assert(-10000 <= samples@[i as int] <= 10000);
        let a: u32 = if s >= 0 {
            s as u32
        } else {
            (-s) as u32
        };
        proof {
            let pre = samples@.subrange(0, i as int);
            let post = samples@.subrange(0, i as int + 1);
            assert(post.drop_last() =~= pre);
            assert(post.last() == samples@[i as int]);
            assert((a as int) * (a as int) <= 100_000_000) by (nonlinear_arith)
                requires
                    0 <= a <= 10000,
            ;
            assert((a as int) * (a as int) == (samples@[i as int] as int) * (
            samples@[i as int] as int)) by (nonlinear_arith)
                requires
                    a == abs_val(samples@[i as int] as int),
            ;
        }
        sum_sq = sum_sq + (a as u64) * (a as u64);
        i = i + 1;
    }
    proof {
        assert(samples@.subrange(0, n as int) =~= samples@);
    }
    let mean: u64 = sum_sq / (n as u64);
    proof {
        assert(mean <= 100_000_000) by (nonlinear_arith)
            requires
                n > 0,
                sum_sq <= (n as int) * 100_000_000,
                mean == sum_sq as int / n as int,
        ;
    }
    mean
}

/// One sample scaled by a gain in hundredths, clamped to full scale.
fn scale_sample(v: i32, g: u32) -> (r: i32)
    requires
        -10000 <= v <= 10000,
        100 <= g <= 1200,
    ensures
        r == scale_sample_spec(v as int, g as int),
        -10000 <= r <= 10000,
{
    if v >= 0 {
        proof {
            assert(0 <= (v as int) * (g as int) <= 12_000_000) by (nonlinear_arith)
                requires
                    0 <= v <= 10000,
                    0 <= g <= 1200,
            ;
        }
        let w: u32 = (v as u32) * g / 100;
        if w > 10000 {
            SAMPLE_SCALE
        } else {
            w as i32
        }
    } else {
        proof {
            assert(0 <= ((-v) as int) * (g as int) <= 12_000_000) by (nonlinear_arith)
                requires
                    0 < -v <= 10000,
                    0 <= g <= 1200,
            ;
            assert(((-v) as int) * (g as int) == -((v as int) * (g as int)))
                by (nonlinear_arith);
        }
        let w: u32 = ((-v) as u32) * g / 100;
        if w > 10000 {
            -SAMPLE_SCALE
        } else {
            -(w as i32)
        }
    }
}

/// Clamps every sample of a signal to full scale.
pub fn clamp_signal(samples: &Vec<i32>) -> (r: Vec<i32>)
    ensures
        r@ == clamp_all(samples@),
        r@.len() == samples@.len(),
        in_range(r@),
{
    let n = samples.len();
    let mut c: Vec<i32> = Vec::new();
    let mut i: usize = 0;
    while i < n
        invariant
            n == samples@.len(),
            0 <= i <= n,
            c@.len() == i,
            forall|j: int|
                0 <= j < i ==> c@[j] == clamp_sample_spec(samples@[j] as int) as i32,
        decreases n - i,
    {
        let v = clamp_sample(samples[i]);
        c.push(v);
        i = i + 1;
    }
    proof {
        assert(c@ =~= clamp_all(samples@));
        assert(in_range(c@));
    }
    c
}

/// Applies the bounded automatic gain of `gain_centi_of` to a clamped
/// signal, when the gain exceeds the `1.05` threshold.
pub fn apply_gain(c: Vec<i32>) -> (r: Vec<i32>)
    requires
        in_range(c@),
        c@.len() <= 0x4000_0000,
    ensures
        r@ == gained(c@),
        r@.len() == c@.len(),
        in_range(r@),
{
    let n = c.len();
    let m = mean_square_of(&c);
    let rms64 = isqrt(m);
    proof {
        if rms64 > 10000 {
            assert(10001 * 10001 <= rms64 * rms64) by (nonlinear_arith)
                requires
                    10001 <= rms64,
            ;
        }
    }
    let rms = rms64 as u32;
    let g: u32 = if 5 < rms && rms < 350 {
        let g0: u32 = 50000 / rms;
        if g0 > 1200 {
            1200
        } else if g0 < 100 {
            100
        } else {
            g0
        }
    } else {
        100
    };
    proof {
        assert(g as int == gain_centi_of(c@));
    }
    if g > 105 {
        let mut out: Vec<i32> = Vec::new();
        let mut k: usize = 0;
        while k < n
            invariant
                n == c@.len(),
                0 <= k <= n,
                in_range(c@),
                100 <= g <= 1200,
                g as int == gain_centi_of(c@),
                out@.len() == k,
                forall|j: int|
                    0 <= j < k ==> out@[j] == scale_sample_spec(c@[j] as int, g as int) as i32,
                forall|j: int| 0 <= j < k ==> -10000 <= #[trigger] out@[j] <= 10000,
            decreases n - k,
        {
            assert(-10000 <= c@[k as int] <= 10000);
            let v = scale_sample(c[k], g);
            out.push(v);
            k = k + 1;
        }
        proof {
            let gg = gain_centi_of(c@);
            assert(out@ =~= c@.map_values(|v: i32| scale_sample_spec(v as int, gg) as i32));
        }
        out
    } else {
        c
    }
}

/// Prepares a signal for decoding: clamps every sample to full scale and
/// applies the bounded automatic gain.
pub fn preprocess(samples: &Vec<i32>) -> (r: Vec<i32>)
    requires
        samples@.len() <= 0x4000_0000,
    ensures
        r@ == preprocess_spec(samples@),
        r@.len() == samples@.len(),
        in_range(r@),
{
    let c = clamp_signal(samples);
    apply_gain(c)
}

} // verus!
