//! A curve given by evenly spaced samples over one period.

use vstd::prelude::*;

verus! {

/// A curve sampled at evenly spaced points, the first at the start of the
/// period and the last at its end. Samples are in millionths.
#[derive(Debug)]
pub struct Interpolation {
    data: Vec<i32>,
}

impl View for Interpolation {
    type V = Seq<i32>;

    closed spec fn view(&self) -> Seq<i32> {
        self.data@
    }
}

/// The sample at or before `value`.
pub open spec fn sample_index(count: nat, value: int, period: int) -> int {
    (value * (count - 1)) / period
}

/// How far `value` lies past that sample, in `period`ths of the gap to the
/// next one.
pub open spec fn sample_offset(count: nat, value: int, period: int) -> int {
    (value * (count - 1)) % period
}

/// The curve at `value`: the sample itself where `value` falls on one,
/// otherwise the point on the line to the next sample, the fraction of the
/// difference being rounded towards the earlier sample. Positions are exact
/// fractions, so a value is on a sample or at least a `period`th of a gap
/// past it; no tolerance is needed to tell the two apart.
pub open spec fn curve_value(samples: Seq<i32>, value: int, period: int) -> int {
    let k = sample_index(samples.len(), value, period);
    let rem = sample_offset(samples.len(), value, period);
    if rem == 0 {
        samples[k] as int
    } else if samples[k + 1] >= samples[k] {
        samples[k] + ((samples[k + 1] - samples[k]) * rem) / period
    } else {
        samples[k] - ((samples[k] - samples[k + 1]) * rem) / period
    }
}

/// Every value of the period falls on a sample or between two of them.
pub proof fn lemma_sample_in_range(count: nat, value: int, period: int)
    requires
        count >= 1,
        period > 0,
        0 <= value <= period,
    ensures
        0 <= sample_index(count, value, period) <= count - 1,
        0 <= sample_offset(count, value, period) < period,
        sample_offset(count, value, period) != 0 ==> sample_index(count, value, period) < count
            - 1,
        value * (count - 1) == period * sample_index(count, value, period) + sample_offset(
            count,
            value,
            period,
        ),
{
    let last = count - 1;
    let pos = value * last;
    assert(0 <= pos <= period * last) by (nonlinear_arith)
        requires
            pos == value * last,
            0 <= value <= period,
            last >= 0,
    ;
    let k = pos / period;
    let rem = pos % period;
    assert(pos == period * k + rem && 0 <= rem < period) by (nonlinear_arith)
        requires
            k == pos / period,
            rem == pos % period,
            period > 0,
    ;
    assert(0 <= k <= last && (rem != 0 ==> k < last)) by (nonlinear_arith)
        requires
            pos == period * k + rem,
            0 <= rem < period,
            0 <= pos <= period * last,
            period > 0,
    ;
}

/// A fraction of a gap is no longer than the gap.
proof fn lemma_fraction_of_gap(gap: int, rem: int, period: int)
    requires
        0 <= gap,
        0 <= rem < period,
    ensures
        0 <= gap * rem,
        0 <= (gap * rem) / period <= gap,
        gap < 0x1_0000_0000 && period <= 0xffff_ffff ==> gap * rem < 0x1_0000_0000 * 0xffff_ffff,
{
    assert(0 <= gap * rem <= gap * period) by (nonlinear_arith)
        requires
            0 <= gap,
            0 <= rem < period,
    ;
    assert((gap * rem) / period <= gap && 0 <= (gap * rem) / period) by (nonlinear_arith)
        requires
            0 <= gap * rem <= gap * period,
            period > 0,
    ;
    if gap < 0x1_0000_0000 && period <= 0xffff_ffff {
        assert(gap * rem < 0x1_0000_0000 * 0xffff_ffff) by (nonlinear_arith)
            requires
                0 <= gap < 0x1_0000_0000,
                0 <= rem < 0xffff_ffff,
        ;
    }
}

impl Interpolation {
    /// The curve through `data`.
    pub fn new(data: Vec<i32>) -> (out: Interpolation)
        ensures
            out@ == data@,
    {
        Interpolation { data }
    }

    /// The curve at `index` of a period of length `of`.
    pub fn interpolate(&self, index: u32, of: u32) -> (out: i32)
        requires
            self@.len() >= 1,
            of > 0,
            index <= of,
        ensures
            out == curve_value(self@, index as int, of as int),
    {
        let last: usize = self.data.len() - 1;
        proof {
            lemma_sample_in_range(self@.len(), index as int, of as int);
            assert(0 <= index * last <= 0xffff_ffff * 0xffff_ffff_ffff_ffff) by (nonlinear_arith)
                requires
                    0 <= index <= 0xffff_ffff,
                    0 <= last <= 0xffff_ffff_ffff_ffff,
            ;
        }
        let pos: u128 = (index as u128) * (last as u128);
        let k: usize = (pos / (of as u128)) as usize;
        let rem: u128 = pos % (of as u128);
        let lo: i32 = self.data[k];
        if rem == 0 {
            lo
        } else {
            let hi: i32 = self.data[k + 1];
            if hi >= lo {
                let gap: u128 = (hi as i64 - lo as i64) as u128;
                proof {
                    lemma_fraction_of_gap(gap as int, rem as int, of as int);
                }
                let part: u128 = gap * rem / (of as u128);
                (lo as i64 + part as i64) as i32
            } else {
                let gap: u128 = (lo as i64 - hi as i64) as u128;
                proof {
                    lemma_fraction_of_gap(gap as int, rem as int, of as int);
                }
                let part: u128 = gap * rem / (of as u128);
                (lo as i64 - part as i64) as i32
            }
        }
    }
}

/// On a sample the curve is that sample, exactly: where `value` is the
/// `k`-th of the `count - 1` equal steps of the period, the result is sample `k`.
pub proof fn lemma_exact_at_samples(samples: Seq<i32>, k: int, value: int, period: int)
    requires
        samples.len() >= 1,
        period > 0,
        0 <= k < samples.len(),
        value * (samples.len() - 1) == k * period,
    ensures
        curve_value(samples, value, period) == samples[k],
{
    let pos = value * (samples.len() - 1);
    assert(pos / period == k && pos % period == 0) by (nonlinear_arith)
        requires
            pos == k * period,
            period > 0,
    ;
}

/// Between two samples the curve stays between them.
pub proof fn lemma_between_samples(samples: Seq<i32>, value: int, period: int)
    requires
        samples.len() >= 1,
        period > 0,
        0 <= value <= period,
        sample_offset(samples.len(), value, period) != 0,
    ensures
        ({
            let k = sample_index(samples.len(), value, period);
            let v = curve_value(samples, value, period);
            &&& 0 <= k < samples.len() - 1
            &&& samples[k] <= samples[k + 1] ==> samples[k] <= v <= samples[k + 1]
            &&& samples[k + 1] <= samples[k] ==> samples[k + 1] <= v <= samples[k]
        }),
{
    lemma_sample_in_range(samples.len(), value, period);
    let k = sample_index(samples.len(), value, period);
    let rem = sample_offset(samples.len(), value, period);
    if samples[k + 1] >= samples[k] {
        lemma_fraction_of_gap(samples[k + 1] - samples[k], rem, period);
    } else {
        lemma_fraction_of_gap(samples[k] - samples[k + 1], rem, period);
    }
}

} // verus!
