use rayon::iter::{IntoParallelIterator, ParallelIterator};
use vstd::arithmetic::mul::lemma_mul_upper_bound;
use vstd::prelude::*;

verus! {

/// The clamped absolute value whose logarithm gives a sample's
/// loudness: `0` keeps magnitude 0, the minimum 16-bit value is clamped
/// to the maximum magnitude 32767 (so the asymmetric negative range
/// never feeds an undefined logarithm), and every other sample
/// contributes `|sample|`.
pub open spec fn spec_magnitude(s: int) -> int {
    if s == -0x8000 {
        0x7FFF
    } else if s < 0 {
        -s
    } else {
        s
    }
}

/// The magnitude of one sample: the argument of the logarithmic
/// loudness conversion.
pub fn sample_magnitude(sample: i16) -> (r: u16)
    ensures
        r == spec_magnitude(sample as int),
{
    if sample == i16::MIN {
        0x7FFF
    } else if sample < 0 {
        (-sample) as u16
    } else {
        sample as u16
    }
}

/// Apart from the clamped minimum value, a sample and its negation have
/// the same magnitude, hence the same loudness.
pub proof fn lemma_magnitude_symmetric(x: int)
    requires
        -0x8000 < x <= 0x7FFF,
    ensures
        spec_magnitude(-x) == spec_magnitude(x),
{
}

/// The clamp at the minimum sample value: its magnitude equals the
/// maximum sample value's, and a zero sample has magnitude zero.
pub proof fn lemma_magnitude_extremes()
    ensures
        spec_magnitude(-0x8000) == spec_magnitude(0x7FFF),
        spec_magnitude(0) == 0,
{
}

/// The trailing window the loudness smoother averages at position `i`:
/// the last `min(w, i + 1)` positions ending at `i`, so the first
/// `w - 1` outputs average fewer than `w` entries and there is no
/// look-ahead.  Returns `(start, len)` with the window covering
/// positions `start ..= i`.
pub fn window_range(i: usize, w: usize) -> (r: (usize, usize))
    requires
        w >= 1,
        i < usize::MAX,
    ensures
        r.1 == if i + 1 < w {
            i + 1
        } else {
            w as int
        },
        r.0 == i + 1 - r.1,
        1 <= r.1 <= w,
        r.0 + r.1 == i + 1,
{
    if i + 1 < w {
        (0, i + 1)
    } else {
        (i + 1 - w, w)
    }
}

/// Position `i` of the curve is a strict local maximum above
/// `threshold`: strictly higher than both neighbors, plateaus excluded.
pub open spec fn spec_is_peak(curve: Seq<i64>, threshold: i64, i: int) -> bool {
    curve[i] > threshold && curve[i] > curve[i - 1] && curve[i] > curve[i + 1]
}

/// Decide whether the interior position `i` is a peak of the curve.
pub fn is_peak_at(volumes: &[i64], threshold: i64, i: usize) -> (r: bool)
    requires
        1 <= i,
        i + 1 < volumes@.len(),
    ensures
        r == spec_is_peak(volumes@, threshold, i as int),
{
    volumes[i] > threshold && volumes[i] > volumes[i - 1] && volumes[i] > volumes[i + 1]
}

/// Relies on rayon: `IntoParallelIterator` for `Range<usize>`,
/// `ParallelIterator::filter` and `collect` into a `Vec`, which keeps
/// exactly the range elements for which the predicate returned true, in
/// the range's ascending order (rayon extends the vector from the
/// ordered splits sequentially).  The predicate itself is the verified
/// `is_peak_at`.
#[verifier::external_body]
fn par_filter_peaks(volumes: &[i64], threshold: i64) -> (r: Vec<usize>)
    requires
        2 <= volumes@.len(),
    ensures
        forall|j: int|
            #![trigger r@[j]]
            0 <= j < r@.len() ==> 1 <= r@[j] && r@[j] + 1 < volumes@.len() && spec_is_peak(
                volumes@,
                threshold,
                r@[j] as int,
            ),
        forall|i: usize|
            #![trigger r@.contains(i)]
            1 <= i && i + 1 < volumes@.len() && spec_is_peak(volumes@, threshold, i as int)
                ==> r@.contains(i),
        forall|j: int, k: int| 0 <= j < k < r@.len() ==> r@[j] < r@[k],
{
    (1..volumes.len() - 1)
        .into_par_iter()
        .filter(|&i| is_peak_at(volumes, threshold, i))
        .collect()
}

/// Scan a loudness curve for strict local maxima above `threshold`.
///
/// The result is the ascending sequence of exactly those interior
/// positions — never position 0, never the last — that rise strictly
/// above both neighbors and above the threshold; a curve with fewer
/// than three entries has no position flanked by two neighbors, so its
/// result is empty.  Candidates are examined in parallel; the merge
/// keeps ascending order.  The curve's values may be any
/// order-preserving integer encoding of loudness: its comparisons are
/// all the detector reads.
pub fn detect_peaks_with_slope(volumes: &[i64], threshold: i64) -> (r: Vec<usize>)
    ensures
        forall|j: int|
            #![trigger r@[j]]
            0 <= j < r@.len() ==> 1 <= r@[j] && r@[j] + 1 < volumes@.len() && spec_is_peak(
                volumes@,
                threshold,
                r@[j] as int,
            ),
        forall|i: usize|
            #![trigger r@.contains(i)]
            1 <= i && i + 1 < volumes@.len() && spec_is_peak(volumes@, threshold, i as int)
                ==> r@.contains(i),
        forall|j: int, k: int| 0 <= j < k < r@.len() ==> r@[j] < r@[k],
        volumes@.len() < 3 ==> r@.len() == 0,
{
    if volumes.len() < 3 {
        Vec::new()
    } else {
        par_filter_peaks(volumes, threshold)
    }
}

/// The peak positions are in order: every pair is nondecreasing.
pub open spec fn spec_sorted(s: Seq<usize>) -> bool {
    forall|j: int, k: int| 0 <= j < k < s.len() ==> s[j] <= s[k]
}

/// The sum of the consecutive differences of a peak sequence: the total
/// number of samples the gaps between neighboring peaks span.
pub open spec fn spec_interval_sum(s: Seq<usize>) -> int
    decreases s.len(),
{
    if s.len() < 2 {
        0
    } else {
        (s[1] - s[0]) + spec_interval_sum(s.subrange(1, s.len() as int))
    }
}

/// The gap sum telescopes to the distance from the first peak to the
/// last.
pub proof fn lemma_interval_sum_telescopes(s: Seq<usize>)
    requires
        s.len() >= 1,
    ensures
        spec_interval_sum(s) == s.last() - s.first(),
    decreases s.len(),
{
    if s.len() >= 2 {
        let t = s.subrange(1, s.len() as int);
        lemma_interval_sum_telescopes(t);
        assert(t.last() == s.last());
        assert(t.first() == s[1]);
    }
}

/// The mean gap between consecutive peaks, as the exact ratio
/// `(gap sum, gap count)`; `None` when fewer than two peaks exist, for
/// then no interval is determined.
pub fn calculate_average_interval(peaks: &[usize]) -> (r: Option<(usize, usize)>)
    requires
        spec_sorted(peaks@),
    ensures
        r is None <==> peaks@.len() < 2,
        r matches Some(t) ==> t.0 == spec_interval_sum(peaks@) && t.1 == peaks@.len() - 1,
{
    if peaks.len() < 2 {
        return None;
    }
    let mut total: usize = 0;
    let mut i: usize = 1;
    while i < peaks.len()
        invariant
            spec_sorted(peaks@),
            2 <= peaks@.len() <= usize::MAX,
            1 <= i <= peaks@.len(),
            total == peaks@[i - 1] - peaks@[0],
        decreases peaks@.len() - i,
    {
        assert(peaks@[0] <= peaks@[i - 1] <= peaks@[i as int]);
        total = total + (peaks[i] - peaks[i - 1]);
        i = i + 1;
    }
    proof {
        lemma_interval_sum_telescopes(peaks@);
    }
    Some((total, peaks.len() - 1))
}

/// The numerator of the exact beats-per-minute ratio: zero when fewer
/// than two peaks exist, else `rate * 60 * (peak count - 1)`.
pub open spec fn spec_tempo_num(peaks: Seq<usize>, rate: u32) -> int {
    if peaks.len() < 2 {
        0
    } else {
        rate * 60 * (peaks.len() - 1)
    }
}

/// The denominator of the exact beats-per-minute ratio: one when fewer
/// than two peaks exist, else the gap sum.
pub open spec fn spec_tempo_den(peaks: Seq<usize>) -> int {
    if peaks.len() < 2 {
        1
    } else {
        spec_interval_sum(peaks)
    }
}

/// A beats-per-minute estimate as the exact ratio `num / den`.
#[derive(Debug, Clone, Copy, PartialEq, Eq, Structural)]
pub struct TempoRatio {
    pub num: u128,
    pub den: u128,
}

/// Estimate the tempo from the detected peaks and the sample rate.
///
/// Fewer than two peaks leave the tempo underdetermined and yield
/// exactly zero (the ratio `0 / 1`), not an error.  Otherwise the
/// estimate is `(rate / mean gap) * 60` beats per minute, delivered as
/// the exact ratio `rate * 60 * (peak count - 1) / gap sum`.
pub fn calculate_tempus(peaks: &[usize], rate: u32) -> (r: TempoRatio)
    requires
        spec_sorted(peaks@),
    ensures
        r.num == spec_tempo_num(peaks@, rate),
        r.den == spec_tempo_den(peaks@),
        peaks@.len() < 2 ==> r.num == 0 && r.den == 1,
{
    match calculate_average_interval(peaks) {
        None => TempoRatio { num: 0, den: 1 },
        Some((total, count)) => {
            proof {
                lemma_mul_upper_bound(
                    rate as int * 60,
                    0xFFFF_FFFFu32 as int * 60,
                    count as int,
                    0xFFFF_FFFF_FFFF_FFFFu64 as int,
                );
            }
            let num = (rate as u128) * 60 * (count as u128);
            TempoRatio { num, den: total as u128 }
        },
    }
}

/// A perfectly periodic peak train: every gap equals `p`.
pub open spec fn spec_periodic(s: Seq<usize>, p: int) -> bool {
    forall|j: int| #![trigger s[j]] 0 < j < s.len() ==> s[j] == s[j - 1] + p
}

/// For a periodic peak train the gap sum is the period times the gap
/// count.
pub proof fn lemma_periodic_interval_sum(s: Seq<usize>, p: int)
    requires
        s.len() >= 1,
        spec_periodic(s, p),
    ensures
        spec_interval_sum(s) == p * (s.len() - 1),
    decreases s.len(),
{
    if s.len() >= 2 {
        let t = s.subrange(1, s.len() as int);
        assert forall|j: int| #![trigger t[j]] 0 < j < t.len() implies t[j] == t[j - 1] + p by {
            assert(t[j] == s[j + 1]);
            assert(t[j - 1] == s[j]);
        }
        lemma_periodic_interval_sum(t, p);
        assert(t.len() == s.len() - 1);
        assert(spec_interval_sum(t) == p * ((s.len() - 1) - 1));
        assert(spec_interval_sum(s) == (s[1] - s[0]) + spec_interval_sum(t));
        assert(s[1] == s[0] + p);
        assert(p * ((s.len() - 1) - 1) + p == p * (s.len() - 1)) by (nonlinear_arith);
    } else {
        assert(p * (s.len() - 1) == 0) by (nonlinear_arith)
            requires
                s.len() == 1,
        ;
    }
}

/// A peak train that is perfectly periodic with period `p` and has at
/// least two peaks yields the tempo `(rate / p) * 60` exactly: the
/// estimate's ratio, cross-multiplied, equals `rate * 60 / p`.
pub proof fn lemma_periodic_tempo(s: Seq<usize>, p: int, rate: u32)
    requires
        s.len() >= 2,
        p >= 1,
        spec_periodic(s, p),
    ensures
        spec_tempo_num(s, rate) * p == spec_tempo_den(s) * (60 * rate),
        spec_tempo_den(s) > 0,
{
    lemma_periodic_interval_sum(s, p);
    assert((rate * 60 * (s.len() - 1)) * p == (p * (s.len() - 1)) * (60 * rate))
        by (nonlinear_arith);
    assert(p * (s.len() - 1) > 0) by (nonlinear_arith)
        requires
            p >= 1,
            s.len() >= 2,
    ;
}

} // verus!
