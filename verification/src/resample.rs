use vstd::arithmetic::div_mod::lemma_fundamental_div_mod;
use vstd::prelude::*;

verus! {

/// The fixed decoding rate, in hertz.
pub const TARGET_RATE: u32 = 16_000;

/// The number of output samples when `len` samples at `rate` hertz are
/// resampled to 16,000 hertz: `floor(len * 16000 / rate)`.
pub open spec fn resampled_len(len: int, rate: int) -> int
    recommends
        rate > 0,
{
    len * 16000 / rate
}

/// The whole part of the source position of output index `n`:
/// `floor(n * rate / 16000)`.
pub open spec fn src_index(n: int, rate: int) -> int {
    n * rate / 16000
}

/// The fractional part of the source position of output index `n`, in
/// sixteen-thousandths: `n * rate mod 16000`.
pub open spec fn src_rem(n: int, rate: int) -> int {
    n * rate % 16000
}

/// Linear interpolation between samples `a` and `b` at fraction
/// `rem / 16000`, rounded down. The offset `0x8000_0000` shifts every `i32`
/// into nonnegative territory so the rounding never straddles zero.
pub open spec fn lerp(a: int, b: int, rem: int) -> int {
    ((a + 0x8000_0000) * (16000 - rem) + (b + 0x8000_0000) * rem) / 16000 - 0x8000_0000
}

/// The source sample bracketing position `idx` from above: the next sample,
/// or the sample itself at the end of the signal.
pub open spec fn bracket_hi(s: Seq<i32>, idx: int) -> int {
    if idx + 1 < s.len() {
        s[idx + 1] as int
    } else {
        s[idx] as int
    }
}

/// The value of the resampled signal at output index `n`.
pub open spec fn resampled_at(s: Seq<i32>, rate: int, n: int) -> int {
    let idx = src_index(n, rate);
    lerp(s[idx] as int, bracket_hi(s, idx), src_rem(n, rate))
}

/// The whole resampled signal.
pub open spec fn resampled_seq(s: Seq<i32>, rate: int) -> Seq<i32> {
    Seq::new(
        resampled_len(s.len() as int, rate) as nat,
        |n: int| resampled_at(s, rate, n) as i32,
    )
}

/// At the target rate every output index lands exactly on a source sample,
/// so resampling reproduces the signal sample for sample.
pub proof fn lemma_resample_identity(s: Seq<i32>, n: int)
    requires
        0 <= n < s.len(),
    ensures
        resampled_len(s.len() as int, 16000) == s.len(),
        resampled_at(s, 16000, n) == s[n],
{
    assert(s.len() as int * 16000 / 16000 == s.len() as int) by (nonlinear_arith);
    assert(n * 16000 / 16000 == n) by (nonlinear_arith);
    assert(n * 16000 % 16000 == 0) by (nonlinear_arith);
    let a = s[n] as int;
    let b = bracket_hi(s, n);
    assert(((a + 0x8000_0000) * 16000 + (b + 0x8000_0000) * 0) / 16000 == a + 0x8000_0000)
        by (nonlinear_arith);
}

/// Resamples a mono signal from `source_rate` hertz to 16,000 hertz by
/// linear interpolation. A zero source rate yields an empty signal. At the
/// target rate the signal comes back unchanged.
pub fn resample_to_16k(input: &Vec<i32>, source_rate: u32) -> (r: Vec<i32>)
    requires
        input@.len() * 16000 <= usize::MAX,
    ensures
        source_rate == 0 ==> r@.len() == 0,
        source_rate > 0 ==> r@.len() == resampled_len(input@.len() as int, source_rate as int),
        forall|n: int|
            0 <= n < r@.len() ==> r@[n] == resampled_at(input@, source_rate as int, n),
        source_rate > 0 ==> r@ == resampled_seq(input@, source_rate as int),
        source_rate == 16000 ==> r@ == input@,
{
    if source_rate == 0 || input.len() == 0 {
        let r: Vec<i32> = Vec::new();
        proof {
            if source_rate > 0 {
                assert(resampled_len(0, source_rate as int) == 0) by (nonlinear_arith)
                    requires
                        source_rate > 0,
                ;
                if input@.len() == 0 {
                    assert(r@ =~= resampled_seq(input@, source_rate as int));
                }
            }
        }
        return r;
    }

    let len = input.len();
    let rate = source_rate as usize;
    let total: usize = len * 16000;
    let out_len: usize = total / rate;
    let mut out: Vec<i32> = Vec::new();
    let mut n: usize = 0;
    while n < out_len
        invariant
            len == input@.len(),
            1 <= rate <= u32::MAX,
            total == len * 16000 <= usize::MAX,
            out_len == total as int / rate as int,
            0 <= n <= out_len,
            out@.len() == n,
            forall|j: int| 0 <= j < n ==> out@[j] == resampled_at(input@, rate as int, j),
        decreases out_len - n,
    {
        proof {
            lemma_fundamental_div_mod(total as int, rate as int);
            assert(n * rate + rate <= total) by (nonlinear_arith)
                requires
                    n < out_len,
                    rate >= 1,
                    total == rate * out_len + total % rate,
                    total % rate >= 0,
            ;
        }
        let pos: usize = n * rate;
        let idx: usize = pos / 16000;
        let rem: usize = pos % 16000;
        proof {
            lemma_fundamental_div_mod(pos as int, 16000);
            assert(idx < len) by (nonlinear_arith)
                requires
                    pos == 16000 * idx + rem,
                    0 <= rem < 16000,
                    pos <= len * 16000 - 1,
            ;
        }
        let a = input[idx];
        let b = if idx + 1 < len {
            input[idx + 1]
        } else {
            a
        };
        let au: u64 = (a as i64 + 0x8000_0000) as u64;
        let bu: u64 = (b as i64 + 0x8000_0000) as u64;
        proof {
            assert(au * ((16000 - rem) as u64) + bu * (rem as u64) <= 0xFFFF_FFFF * 16000)
                by (nonlinear_arith)
                requires
                    0 <= au <= 0xFFFF_FFFF,
                    0 <= bu <= 0xFFFF_FFFF,
                    0 <= rem < 16000,
            ;
        }
        let num: u64 = au * ((16000 - rem) as u64) + bu * (rem as u64);
        let q: u64 = num / 16000;
        proof {
            assert(q <= 0xFFFF_FFFF) by (nonlinear_arith)
                requires
                    num <= 0xFFFF_FFFF * 16000,
                    q == num as int / 16000,
            ;
        }
        let w: i64 = (q as i64) - 0x8000_0000;
        out.push(w as i32);
        proof {
            assert(out@[n as int] == resampled_at(input@, rate as int, n as int));
        }
        n = n + 1;
    }
    proof {
        assert(out@ =~= resampled_seq(input@, rate as int));
        if source_rate == 16000 {
            assert forall|j: int| 0 <= j < out@.len() implies out@[j] == input@[j] by {
                lemma_resample_identity(input@, j);
            }
            assert(out_len == len) by {
                lemma_resample_identity(input@, 0);
            }
            assert(out@ =~= input@);
        }
    }
    out
}

} // verus!
