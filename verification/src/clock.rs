use vstd::prelude::*;

use vstd::arithmetic::div_mod::lemma_div_is_ordered;
use vstd::arithmetic::div_mod::lemma_div_pos_is_pos;
use vstd::arithmetic::div_mod::lemma_fundamental_div_mod;
use vstd::arithmetic::mul::lemma_mul_inequality;

use crate::errors::Pca9685Error;
use crate::units::Millionths;
use crate::units::PCA_PWM_RESOLUTION;

verus! {

/// One second, in nanoseconds: the device emits `output_frequency_hz` PWM
/// cycles per second, so one cycle — the longest representable pulse — lasts
/// exactly `1_000_000_000 / output_frequency_hz` nanoseconds.
pub const NANOS_PER_SECOND: u64 = 1_000_000_000;

/// The timing constants of a configured device, derived from its PWM output
/// frequency.
///
/// All arithmetic is exact and over integers.  A pulse width `pw` (in
/// nanoseconds) is representable iff `pw * hz <= 1_000_000_000`, which is the
/// cross-multiplied form of `pw <= 1000/hz` milliseconds; its count is
/// `floor(pw * hz * 4096 / 1_000_000_000)`, the cross-multiplied form of
/// `floor(pw / single_count_duration)` where one count lasts
/// `(1000/hz)/4096` milliseconds.
#[derive(Clone, Copy, PartialEq, Eq, Structural, Debug)]
pub struct PcaClockConfig {
    /// PWM output frequency, in cycles per second.
    pub output_frequency_hz: u16,
}

impl PcaClockConfig {
    /// A frequency of zero would leave no cycle at all.
    pub open spec fn wf(self) -> bool {
        1 <= self.output_frequency_hz
    }

    /// The longest representable pulse width in nanoseconds, truncated:
    /// `floor(1000/hz ms)` expressed in nanoseconds.
    pub open spec fn max_pw_ns(self) -> int {
        (NANOS_PER_SECOND as int) / (self.output_frequency_hz as int)
    }

    /// The longest representable pulse width as a [`Millionths`] value.
    pub open spec fn max_pw(self) -> Millionths {
        Millionths { raw: self.max_pw_ns() as i64 }
    }

    /// The duration of a single count in nanoseconds, truncated:
    /// `floor((1000/hz)/4096 ms)` expressed in nanoseconds.
    pub open spec fn single_count_ns(self) -> int {
        (NANOS_PER_SECOND as int) / ((PCA_PWM_RESOLUTION as int) * (self.output_frequency_hz as int))
    }

    /// Whether a pulse width in nanoseconds lies within what the device can
    /// represent: `0 <= pw` and `pw * hz <= one second`, the exact form of
    /// `0 <= pw <= 1000/hz` milliseconds.
    pub open spec fn pw_in_range(self, pw_ns: int) -> bool {
        &&& 0 <= pw_ns
        &&& pw_ns * (self.output_frequency_hz as int) <= NANOS_PER_SECOND as int
    }

    /// The count a pulse width converts to, rounded toward zero:
    /// `floor(pw * hz * 4096 / one second)`, the exact form of
    /// `floor(pw / single_count_duration)`.
    pub open spec fn count_of(self, pw_ns: int) -> int {
        pw_ns * (self.output_frequency_hz as int) * (PCA_PWM_RESOLUTION as int) / (
        NANOS_PER_SECOND as int)
    }

    /// Wraps an output frequency.
    pub fn new(output_frequency_hz: u16) -> (r: PcaClockConfig)
        requires
            1 <= output_frequency_hz,
        ensures
            r.output_frequency_hz == output_frequency_hz,
            r.wf(),
    {
        PcaClockConfig { output_frequency_hz }
    }

    /// The longest representable pulse width, in nanoseconds (truncated).
    pub fn max_pw_millionths(&self) -> (r: Millionths)
        requires
            self.wf(),
        ensures
            r == self.max_pw(),
            0 <= r.raw <= NANOS_PER_SECOND,
    {
        proof {
            lemma_div_pos_is_pos(NANOS_PER_SECOND as int, self.output_frequency_hz as int);
            vstd::arithmetic::div_mod::lemma_div_nonincreasing(
                NANOS_PER_SECOND as int,
                self.output_frequency_hz as int,
            );
        }
        let max_ns: u64 = NANOS_PER_SECOND / (self.output_frequency_hz as u64);
        Millionths { raw: max_ns as i64 }
    }

    /// Converts a representable pulse width to its count.
    ///
    /// The result is exactly `floor(pw * hz * 4096 / one second)` and never
    /// exceeds the full-on sentinel 4096.
    pub fn count_for(&self, pw_ms: Millionths) -> (c: u16)
        requires
            self.wf(),
            self.pw_in_range(pw_ms.raw as int),
        ensures
            c as int == self.count_of(pw_ms.raw as int),
            c <= PCA_PWM_RESOLUTION,
    {
        let hz: u64 = self.output_frequency_hz as u64;
        let pw: u64 = pw_ms.raw as u64;
        proof {
            lemma_count_le_resolution(pw as int, hz as int);
        }
        let product: u64 = pw * hz;
        let scaled: u64 = product * (PCA_PWM_RESOLUTION as u64);
        let counts: u64 = scaled / NANOS_PER_SECOND;
        counts as u16
    }

    /// Whether a pulse width lies within what the device can represent.
    pub fn pw_representable(&self, pw_ms: Millionths) -> (r: bool)
        requires
            self.wf(),
        ensures
            r == self.pw_in_range(pw_ms.raw as int),
    {
        if pw_ms.raw < 0 {
            return false;
        }
        proof {
            lemma_pw_range_equiv(pw_ms.raw as int, self.output_frequency_hz as int);
        }
        let max_ns: Millionths = self.max_pw_millionths();
        pw_ms.raw <= max_ns.raw
    }

    /// Converts a pulse width in milliseconds (held as nanoseconds) to a
    /// count, rejecting widths outside the representable range.
    ///
    /// Fails with [`Pca9685Error::PulseWidthRangeError`] — carrying the value
    /// and the longest representable width — iff the width is negative or
    /// longer than one full cycle.  Otherwise the count is exactly
    /// `floor(pw * hz * 4096 / one second)`.
    pub fn pw_to_count(&self, pw_ms: Millionths) -> (r: Result<u16, Pca9685Error>)
        requires
            self.wf(),
        ensures
            self.pw_in_range(pw_ms.raw as int) ==> (r matches Ok(c) && c as int == self.count_of(
                pw_ms.raw as int,
            ) && c <= PCA_PWM_RESOLUTION),
            !self.pw_in_range(pw_ms.raw as int) ==> r == Result::<u16, Pca9685Error>::Err(
                Pca9685Error::PulseWidthRangeError(pw_ms, self.max_pw()),
            ),
    {
        let max_ns: Millionths = self.max_pw_millionths();
        if pw_ms.raw < 0 {
            return Err(Pca9685Error::PulseWidthRangeError(pw_ms, max_ns));
        }
        proof {
            lemma_pw_range_equiv(pw_ms.raw as int, self.output_frequency_hz as int);
        }
        if pw_ms.raw > max_ns.raw {
            return Err(Pca9685Error::PulseWidthRangeError(pw_ms, max_ns));
        }
        Ok(self.count_for(pw_ms))
    }
}

/// For a nonnegative pulse width, lying at or below the truncated maximum
/// `floor(one second / hz)` is the same as the exact cross-multiplied bound
/// `pw * hz <= one second`.
proof fn lemma_pw_range_equiv(pw: int, hz: int)
    requires
        1 <= hz,
        0 <= pw,
    ensures
        (pw <= (NANOS_PER_SECOND as int) / hz) == (pw * hz <= NANOS_PER_SECOND as int),
{
    let second = NANOS_PER_SECOND as int;
    let q = second / hz;
    let r = second % hz;
    lemma_fundamental_div_mod(second, hz);
    if pw <= q {
        lemma_mul_inequality(pw, q, hz);
        assert(q * hz == hz * q) by (nonlinear_arith);
    } else {
        lemma_mul_inequality(q + 1, pw, hz);
        assert((q + 1) * hz == hz * q + hz) by (nonlinear_arith);
    }
}

/// A pulse width within one cycle converts to a count of at most 4096, and
/// the intermediate products stay small.
proof fn lemma_count_le_resolution(pw: int, hz: int)
    requires
        1 <= hz,
        0 <= pw,
        pw * hz <= NANOS_PER_SECOND as int,
    ensures
        0 <= pw * hz,
        0 <= pw * hz * 4096 <= 4_096_000_000_000,
        0 <= pw * hz * 4096 / (NANOS_PER_SECOND as int) <= 4096,
{
    let second = NANOS_PER_SECOND as int;
    assert(0 <= pw * hz) by (nonlinear_arith)
        requires
            0 <= pw,
            1 <= hz,
    ;
    lemma_mul_inequality(pw * hz, second, 4096);
    assert(0 <= pw * hz * 4096) by (nonlinear_arith)
        requires
            0 <= pw * hz,
    ;
    lemma_div_is_ordered(pw * hz * 4096, 4_096_000_000_000, second);
    lemma_div_pos_is_pos(pw * hz * 4096, second);
    assert(4_096_000_000_000int / 1_000_000_000int == 4096);
}

// ---------------------------------------------------------------------------
// Laws of the conversion: monotonicity, truncation, and the exact meaning of
// the two derived timing constants.
// ---------------------------------------------------------------------------

/// Converting a pulse width to a count is monotonic: a pulse no longer than
/// another never yields a larger count.
pub proof fn lemma_pw_to_count_monotonic(clock: PcaClockConfig, a: int, b: int)
    requires
        clock.wf(),
        0 <= a <= b,
    ensures
        clock.count_of(a) <= clock.count_of(b),
{
    let hz = clock.output_frequency_hz as int;
    lemma_mul_inequality(a, b, hz);
    lemma_mul_inequality(a * hz, b * hz, PCA_PWM_RESOLUTION as int);
    lemma_div_is_ordered(
        a * hz * (PCA_PWM_RESOLUTION as int),
        b * hz * (PCA_PWM_RESOLUTION as int),
        NANOS_PER_SECOND as int,
    );
}

/// The conversion truncates — it never rounds up: the count, scaled back to
/// a duration, is at most the pulse width, and falls short of it by less
/// than one count's duration.  A zero pulse width yields count zero.
pub proof fn lemma_pw_to_count_truncates(clock: PcaClockConfig, pw: int)
    requires
        clock.wf(),
        0 <= pw,
    ensures
        (NANOS_PER_SECOND as int) * clock.count_of(pw) <= pw * (clock.output_frequency_hz as int)
            * (PCA_PWM_RESOLUTION as int),
        pw * (clock.output_frequency_hz as int) * (PCA_PWM_RESOLUTION as int) < (
        NANOS_PER_SECOND as int) * (clock.count_of(pw) + 1),
        clock.count_of(0) == 0,
{
    let second = NANOS_PER_SECOND as int;
    let hz = clock.output_frequency_hz as int;
    assert(0 <= pw * hz * (PCA_PWM_RESOLUTION as int)) by (nonlinear_arith)
        requires
            0 <= pw,
            1 <= hz,
    ;
    lemma_fundamental_div_mod(pw * hz * (PCA_PWM_RESOLUTION as int), second);
    assert(0int * hz * (PCA_PWM_RESOLUTION as int) == 0) by (nonlinear_arith);
    assert(0int / second == 0) by {
        vstd::arithmetic::div_mod::lemma_div_of0(second);
    };
}

/// The largest representable pulse width is exactly one full cycle, and —
/// whenever one second divides evenly into cycles, as at 200 Hz — it
/// converts to the full-on count 4096.  This is the exact content of
/// `max_pulse_width = 1000/hz` milliseconds.
pub proof fn lemma_max_pw_is_full_scale(clock: PcaClockConfig)
    requires
        clock.wf(),
        (NANOS_PER_SECOND as int) % (clock.output_frequency_hz as int) == 0,
    ensures
        clock.pw_in_range(clock.max_pw_ns()),
        clock.max_pw_ns() * (clock.output_frequency_hz as int) == NANOS_PER_SECOND as int,
        clock.count_of(clock.max_pw_ns()) == PCA_PWM_RESOLUTION,
{
    let second = NANOS_PER_SECOND as int;
    let hz = clock.output_frequency_hz as int;
    let q = second / hz;
    lemma_fundamental_div_mod(second, hz);
    assert(hz * q == q * hz) by (nonlinear_arith);
    lemma_div_pos_is_pos(second, hz);
    assert(q * hz * (PCA_PWM_RESOLUTION as int) == (PCA_PWM_RESOLUTION as int) * second)
        by (nonlinear_arith)
        requires
            q * hz == second,
    ;
    vstd::arithmetic::div_mod::lemma_div_multiples_vanish(PCA_PWM_RESOLUTION as int, second);
}

/// A pulse lasting exactly `k` single-count durations converts to count `k`:
/// the exact content of `single_count_duration = max_pulse_width / 4096`,
/// stated for every pulse width that is a whole multiple of one count's
/// duration `one second / (hz * 4096)`.
pub proof fn lemma_single_count_duration(clock: PcaClockConfig, k: int, pw: int)
    requires
        clock.wf(),
        0 <= k,
        pw * ((clock.output_frequency_hz as int) * (PCA_PWM_RESOLUTION as int)) == k * (
        NANOS_PER_SECOND as int),
    ensures
        clock.count_of(pw) == k,
{
    let second = NANOS_PER_SECOND as int;
    let hz = clock.output_frequency_hz as int;
    assert(pw * hz * (PCA_PWM_RESOLUTION as int) == pw * (hz * (PCA_PWM_RESOLUTION as int)))
        by (nonlinear_arith);
    assert(k * second == second * k) by (nonlinear_arith);
    vstd::arithmetic::div_mod::lemma_div_multiples_vanish(k, second);
}

} // verus!
