use vstd::prelude::*;

use vstd::arithmetic::div_mod::lemma_div_is_ordered;
use vstd::arithmetic::div_mod::lemma_div_multiples_vanish;
use vstd::arithmetic::div_mod::lemma_div_pos_is_pos;
use vstd::arithmetic::mul::lemma_mul_inequality;

use crate::clock::lemma_pw_to_count_monotonic;
use crate::clock::PcaClockConfig;
use crate::errors::ConfigFault;
use crate::errors::Pca9685Error;
use crate::units::Millionths;
use crate::units::PCA_PWM_RESOLUTION;

verus! {

/// One whole, when a fraction is held in parts per million.
pub const MILLIONTHS_PER_WHOLE: i64 = 1_000_000;

/// Constrains the counts of a channel to values other than the default
/// [0, 4096].
///
/// For example, a servo may be constrained to [1000, 2000], which then
/// affects the behavior of subsequent count, pulse-width and percent
/// commands on that channel.
#[derive(Clone, Copy, PartialEq, Eq, Structural, Debug)]
pub struct ChannelCountLimits {
    pub min_on_count: u16,
    pub max_on_count: u16,
}

/// A channel operating range expressed as pulse widths, in milliseconds held
/// as [`Millionths`].
#[derive(Clone, Copy, PartialEq, Eq, Structural, Debug)]
pub struct ChannelMsLimits {
    pub min_on_ms: Millionths,
    pub max_on_ms: Millionths,
}

/// A channel operating range: supplied as either a count range or a
/// pulse-width range, and always normalized to a count range once stored.
/// The pulse-width form, when given, is retained only for reporting.
#[derive(Clone, Copy, PartialEq, Debug)]
pub struct ChannelLimits {
    pub count_limits: Option<ChannelCountLimits>,
    pub pw_limits: Option<ChannelMsLimits>,
}

impl ChannelCountLimits {
    /// An ordered range inside the count space, where 4096 is the full-on
    /// sentinel.
    pub open spec fn wf(self) -> bool {
        self.min_on_count <= self.max_on_count <= PCA_PWM_RESOLUTION
    }

    /// Whether a count lies inside the range, bounds included.
    pub open spec fn contains(self, value: int) -> bool {
        self.min_on_count <= value <= self.max_on_count
    }

    /// The count a fraction of the range maps to:
    /// `min + floor((max - min) * fraction)`, with the fraction in parts per
    /// million.
    pub open spec fn pct_count_of(self, ppm: int) -> int {
        self.min_on_count + (self.max_on_count - self.min_on_count) * ppm / (
        MILLIONTHS_PER_WHOLE as int)
    }

    /// Returns true if `value` is within [`min_on_count`, `max_on_count`].
    pub fn is_valid(&self, value: u16) -> (r: bool)
        ensures
            r == self.contains(value as int),
    {
        value >= self.min_on_count && value <= self.max_on_count
    }
}

impl Default for ChannelCountLimits {
    /// The whole count space, full-on sentinel included.
    fn default() -> (r: Self)
        ensures
            r.min_on_count == 0,
            r.max_on_count == PCA_PWM_RESOLUTION,
            r.wf(),
    {
        Self { min_on_count: 0, max_on_count: PCA_PWM_RESOLUTION }
    }
}

impl ChannelLimits {
    /// A stored range always carries its canonical count form, ordered and
    /// inside the count space.
    pub open spec fn wf(self) -> bool {
        &&& self.count_limits is Some
        &&& self.count_limits.unwrap().wf()
    }

    /// The canonical count range.
    pub open spec fn counts(self) -> ChannelCountLimits {
        self.count_limits.unwrap()
    }

    /// Builds a range from count bounds: an ordered sub-range of the
    /// addressable count space [0, 4095] — the full-on sentinel 4096 is
    /// reserved for the default range.  The canonical form holds exactly
    /// the given bounds; no pulse-width form is retained.
    pub fn from_count_limits(min_on_count: u16, max_on_count: u16) -> (r: Self)
        requires
            min_on_count <= max_on_count < PCA_PWM_RESOLUTION,
        ensures
            r.count_limits == Some(ChannelCountLimits { min_on_count, max_on_count }),
            r.pw_limits is None,
            r.wf(),
    {
        Self {
            count_limits: Some(ChannelCountLimits { min_on_count, max_on_count }),
            pw_limits: None,
        }
    }

    /// Builds a range from pulse-width bounds, converting both through the
    /// clock into the canonical count form and retaining the original
    /// millisecond bounds for reporting.
    pub fn from_pw_limits(
        min_on_pw_ms: Millionths,
        max_on_pw_ms: Millionths,
        clock_config: PcaClockConfig,
    ) -> (r: Self)
        requires
            clock_config.wf(),
            clock_config.pw_in_range(min_on_pw_ms.raw as int),
            clock_config.pw_in_range(max_on_pw_ms.raw as int),
            min_on_pw_ms.raw <= max_on_pw_ms.raw,
        ensures
            r.count_limits == Some(
                ChannelCountLimits {
                    min_on_count: clock_config.count_of(min_on_pw_ms.raw as int) as u16,
                    max_on_count: clock_config.count_of(max_on_pw_ms.raw as int) as u16,
                },
            ),
            r.pw_limits == Some(
                ChannelMsLimits { min_on_ms: min_on_pw_ms, max_on_ms: max_on_pw_ms },
            ),
            r.wf(),
    {
        proof {
            lemma_pw_to_count_monotonic(
                clock_config,
                min_on_pw_ms.raw as int,
                max_on_pw_ms.raw as int,
            );
        }
        let min_on_count: u16 = clock_config.count_for(min_on_pw_ms);
        let max_on_count: u16 = clock_config.count_for(max_on_pw_ms);
        Self {
            count_limits: Some(ChannelCountLimits { min_on_count, max_on_count }),
            pw_limits: Some(ChannelMsLimits { min_on_ms: min_on_pw_ms, max_on_ms: max_on_pw_ms }),
        }
    }

    /// Returns true if `value` is within the canonical count range.
    pub fn is_valid(&self, value: u16) -> (r: bool)
        requires
            self.wf(),
        ensures
            r == self.counts().contains(value as int),
    {
        match &self.count_limits {
            Some(counts) => counts.is_valid(value),
            None => false,
        }
    }

    /// The canonical count range as a pair.
    pub fn count_limits(&self) -> (r: (u16, u16))
        requires
            self.wf(),
        ensures
            r.0 == self.counts().min_on_count,
            r.1 == self.counts().max_on_count,
    {
        match &self.count_limits {
            Some(counts) => (counts.min_on_count, counts.max_on_count),
            None => (0, 0),
        }
    }

    /// Maps a duty-cycle fraction (in parts per million) to a count within
    /// the range.
    ///
    /// Fails with [`Pca9685Error::PercentOfRangeError`] iff the fraction lies
    /// outside [0, 1].  Otherwise the count is exactly
    /// `min + floor((max - min) * fraction)`, which always lies inside the
    /// range.
    pub fn pct_to_count(&self, pct: Millionths) -> (r: Result<u16, Pca9685Error>)
        requires
            self.wf(),
        ensures
            0 <= pct.raw <= MILLIONTHS_PER_WHOLE ==> (r matches Ok(c) && c as int
                == self.counts().pct_count_of(pct.raw as int) && self.counts().contains(c as int)),
            !(0 <= pct.raw <= MILLIONTHS_PER_WHOLE) ==> r == Result::<u16, Pca9685Error>::Err(
                Pca9685Error::PercentOfRangeError(pct),
            ),
    {
        if pct.raw < 0 || pct.raw > MILLIONTHS_PER_WHOLE {
            return Err(Pca9685Error::PercentOfRangeError(pct));
        }
        let (min_on_count, max_on_count) = self.count_limits();
        proof {
            lemma_pct_within_range(self.counts(), pct.raw as int);
        }
        let width: i64 = (max_on_count - min_on_count) as i64;
        let scaled: i64 = width * pct.raw / MILLIONTHS_PER_WHOLE;
        Ok(min_on_count + (scaled as u16))
    }
}

impl Default for ChannelLimits {
    /// The default operating range: the whole count space, as counts.
    fn default() -> (r: Self)
        ensures
            r.count_limits == Some(
                ChannelCountLimits { min_on_count: 0, max_on_count: PCA_PWM_RESOLUTION },
            ),
            r.pw_limits is None,
            r.wf(),
    {
        Self {
            count_limits: Some(
                ChannelCountLimits { min_on_count: 0, max_on_count: PCA_PWM_RESOLUTION },
            ),
            pw_limits: None,
        }
    }
}

/// For a fraction within [0, 1], the scaled offset stays within the range
/// width, so the mapped count stays within the range.
proof fn lemma_pct_within_range(limits: ChannelCountLimits, ppm: int)
    requires
        limits.wf(),
        0 <= ppm <= MILLIONTHS_PER_WHOLE,
    ensures
        0 <= (limits.max_on_count - limits.min_on_count) * ppm / (MILLIONTHS_PER_WHOLE as int) <= (
        limits.max_on_count - limits.min_on_count),
        limits.contains(limits.pct_count_of(ppm)),
{
    let width = limits.max_on_count - limits.min_on_count;
    let whole = MILLIONTHS_PER_WHOLE as int;
    assert(0 <= width * ppm) by (nonlinear_arith)
        requires
            0 <= width,
            0 <= ppm,
    ;
    lemma_mul_inequality(ppm, whole, width);
    assert(ppm * width == width * ppm) by (nonlinear_arith);
    assert(whole * width == width * whole) by (nonlinear_arith);
    lemma_div_is_ordered(width * ppm, width * whole, whole);
    lemma_div_multiples_vanish(width, whole);
    lemma_div_pos_is_pos(width * ppm, whole);
}

// ---------------------------------------------------------------------------
// Laws of the percent mapping.
// ---------------------------------------------------------------------------

/// A fraction of 0 maps to the lower bound of the range, and a fraction of 1
/// (one million parts per million) maps to the upper bound.
pub proof fn lemma_pct_endpoints(limits: ChannelCountLimits)
    requires
        limits.wf(),
    ensures
        limits.pct_count_of(0) == limits.min_on_count,
        limits.pct_count_of(MILLIONTHS_PER_WHOLE as int) == limits.max_on_count,
{
    let width = limits.max_on_count - limits.min_on_count;
    let whole = MILLIONTHS_PER_WHOLE as int;
    assert(width * 0int == 0) by (nonlinear_arith);
    vstd::arithmetic::div_mod::lemma_div_of0(whole);
    assert(width * whole == whole * width) by (nonlinear_arith);
    lemma_div_multiples_vanish(width, whole);
}

/// The percent mapping is monotonic in the fraction, and its result always
/// lies within the range: linear interpolation never escapes the bounds.
pub proof fn lemma_pct_monotonic_and_bounded(limits: ChannelCountLimits, p1: int, p2: int)
    requires
        limits.wf(),
        0 <= p1 <= p2 <= MILLIONTHS_PER_WHOLE,
    ensures
        limits.pct_count_of(p1) <= limits.pct_count_of(p2),
        limits.contains(limits.pct_count_of(p1)),
        limits.contains(limits.pct_count_of(p2)),
{
    let width = limits.max_on_count - limits.min_on_count;
    let whole = MILLIONTHS_PER_WHOLE as int;
    assert(width * p1 <= width * p2) by (nonlinear_arith)
        requires
            0 <= width,
            p1 <= p2,
    ;
    lemma_div_is_ordered(width * p1, width * p2, whole);
    lemma_pct_within_range(limits, p1);
    lemma_pct_within_range(limits, p2);
}

} // verus!
