use vstd::prelude::*;

use crate::clock::PcaClockConfig;
use crate::device::Pca9685Proxy;
use crate::errors::ConfigFault;
use crate::errors::Pca9685Error;
use crate::limits::ChannelCountLimits;
use crate::limits::ChannelLimits;
use crate::units::Millionths;
use crate::units::PCA_PWM_RESOLUTION;

verus! {

/// Represents the desired and/or actual configuration of a channel.
///
/// As an input, carries the operating limits to set on the channel (in which
/// case `current_count` is not used).  As an output, describes the current
/// output count (`current_count`, where `None` is unset and 4096 is
/// full-on) and the configured limits (`custom_limits`), if any.
#[derive(Clone, Copy, PartialEq, Debug)]
pub struct ChannelConfig {
    pub channel: u8,
    pub current_count: Option<u16>,
    pub custom_limits: Option<ChannelLimits>,
}

/// Whether a supplied limits value is acceptable: exactly one of the count
/// form and the pulse-width form is present, the count form is an ordered
/// sub-range of the addressable count space [0, 4095] — the full-on
/// sentinel 4096 is reserved for the default range — and the pulse-width
/// form is an ordered range of representable widths.
pub open spec fn candidate_valid(clock: PcaClockConfig, l: ChannelLimits) -> bool {
    match (l.count_limits, l.pw_limits) {
        (Option::Some(c), Option::None) => c.min_on_count <= c.max_on_count
            < PCA_PWM_RESOLUTION,
        (Option::None, Option::Some(p)) => {
            &&& clock.pw_in_range(p.min_on_ms.raw as int)
            &&& clock.pw_in_range(p.max_on_ms.raw as int)
            &&& p.min_on_ms.raw <= p.max_on_ms.raw
        },
        _ => false,
    }
}

/// The error an unacceptable limits value is rejected with.
pub open spec fn candidate_error(clock: PcaClockConfig, l: ChannelLimits) -> Pca9685Error {
    match (l.count_limits, l.pw_limits) {
        (Option::None, Option::None) => Pca9685Error::InvalidConfiguration(
            ConfigFault::MissingRange,
        ),
        (Option::Some(_), Option::Some(_)) => Pca9685Error::InvalidConfiguration(
            ConfigFault::ConflictingRanges,
        ),
        (Option::Some(_), Option::None) => Pca9685Error::InvalidConfiguration(
            ConfigFault::InvalidCountRange,
        ),
        (Option::None, Option::Some(p)) => if !clock.pw_in_range(p.min_on_ms.raw as int) {
            Pca9685Error::PulseWidthRangeError(p.min_on_ms, clock.max_pw())
        } else if !clock.pw_in_range(p.max_on_ms.raw as int) {
            Pca9685Error::PulseWidthRangeError(p.max_on_ms, clock.max_pw())
        } else {
            Pca9685Error::InvalidConfiguration(ConfigFault::InvalidPulseWidthRange)
        },
    }
}

/// The canonical stored form of an acceptable limits value: a count range is
/// stored as given; a pulse-width range is converted through the clock and
/// retained alongside its count form.
pub open spec fn normalized_limits(clock: PcaClockConfig, l: ChannelLimits) -> ChannelLimits {
    match (l.count_limits, l.pw_limits) {
        (Option::None, Option::Some(p)) => ChannelLimits {
            count_limits: Some(
                ChannelCountLimits {
                    min_on_count: clock.count_of(p.min_on_ms.raw as int) as u16,
                    max_on_count: clock.count_of(p.max_on_ms.raw as int) as u16,
                },
            ),
            pw_limits: Some(p),
        },
        _ => ChannelLimits { count_limits: l.count_limits, pw_limits: None },
    }
}

/// Decides [`candidate_valid`] at run time.
pub fn candidate_ok(clock: &PcaClockConfig, l: &ChannelLimits) -> (r: bool)
    requires
        clock.wf(),
    ensures
        r == candidate_valid(*clock, *l),
{
    match (&l.count_limits, &l.pw_limits) {
        (Some(c), None) => c.min_on_count <= c.max_on_count && c.max_on_count
            < PCA_PWM_RESOLUTION,
        (None, Some(p)) => clock.pw_representable(p.min_on_ms) && clock.pw_representable(
            p.max_on_ms,
        ) && p.min_on_ms.raw <= p.max_on_ms.raw,
        _ => false,
    }
}

impl ChannelConfig {
    /// The channel exists, stored limits are canonical, and the output never
    /// exceeds the full-on sentinel.
    pub open spec fn wf(self) -> bool {
        &&& self.channel < 16
        &&& (self.custom_limits matches Some(l) ==> l.wf())
        &&& (self.current_count matches Some(c) ==> c <= PCA_PWM_RESOLUTION)
    }

    /// The limits in force: the configured count range, or the whole count
    /// space when none is configured.
    pub open spec fn effective_counts(self) -> ChannelCountLimits {
        match self.custom_limits {
            Option::Some(l) => l.counts(),
            Option::None => ChannelCountLimits { min_on_count: 0, max_on_count: PCA_PWM_RESOLUTION },
        }
    }

    /// The limits in force, in the form error payloads carry.
    pub open spec fn effective_limits(self) -> ChannelLimits {
        match self.custom_limits {
            Option::Some(l) => l,
            Option::None => ChannelLimits {
                count_limits: Some(
                    ChannelCountLimits { min_on_count: 0, max_on_count: PCA_PWM_RESOLUTION },
                ),
                pw_limits: None,
            },
        }
    }

    /// The count bounds in force, as a pair.
    pub fn limits(&self) -> (r: (u16, u16))
        requires
            self.wf(),
        ensures
            r.0 == self.effective_counts().min_on_count,
            r.1 == self.effective_counts().max_on_count,
    {
        match &self.custom_limits {
            Some(limits) => limits.count_limits(),
            None => (0, PCA_PWM_RESOLUTION),
        }
    }
}

/// The per-channel record: the channel's current configuration, and the
/// clock whose constants its conversions use.
#[derive(Clone, Copy, PartialEq, Debug)]
pub struct ChannelProxy {
    pub config: ChannelConfig,
    pub clock_config: PcaClockConfig,
}

impl ChannelProxy {
    pub open spec fn wf(self) -> bool {
        &&& self.config.wf()
        &&& self.clock_config.wf()
    }

    /// What never changes across a command: the identity, the clock, and the
    /// configured limits.
    pub open spec fn same_identity(self, other: Self) -> bool {
        &&& other.clock_config == self.clock_config
        &&& other.config.channel == self.config.channel
        &&& other.config.custom_limits == self.config.custom_limits
    }

    /// A fresh record: unset output, no limits.
    pub fn new(channel: u8, clock_config: PcaClockConfig) -> (r: ChannelProxy)
        requires
            channel < 16,
            clock_config.wf(),
        ensures
            r.wf(),
            r.config.channel == channel,
            r.config.current_count is None,
            r.config.custom_limits is None,
            r.clock_config == clock_config,
    {
        ChannelProxy {
            config: ChannelConfig { channel, current_count: None, custom_limits: None },
            clock_config,
        }
    }

    /// A snapshot of the channel's configuration.
    pub fn config(&self) -> (r: ChannelConfig)
        ensures
            r == self.config,
    {
        self.config
    }

    /// Replaces the channel's limits.
    ///
    /// `None` clears them.  `Some` must hold exactly one of the two range
    /// forms, ordered and representable; otherwise the candidate is rejected
    /// with [`candidate_error`] and nothing changes.  The stored form is the
    /// canonical [`normalized_limits`].  The current output is never touched.
    pub fn configure_limits(&mut self, custom_limits: &Option<ChannelLimits>) -> (r: Result<
        ChannelConfig,
        Pca9685Error,
    >)
        requires
            old(self).wf(),
        ensures
            final(self).wf(),
            final(self).clock_config == old(self).clock_config,
            final(self).config.channel == old(self).config.channel,
            final(self).config.current_count == old(self).config.current_count,
            custom_limits is None ==> (r matches Ok(cfg) && final(self).config.custom_limits
                is None && cfg == final(self).config),
            custom_limits matches Some(l) ==> {
                &&& candidate_valid(old(self).clock_config, *l) ==> (r matches Ok(cfg) && final(self).config.custom_limits == Some(normalized_limits(old(self).clock_config, *l)) && cfg
                    == final(self).config)
                &&& !candidate_valid(old(self).clock_config, *l) ==> (r matches Err(e) && e
                    == candidate_error(old(self).clock_config, *l) && final(self).config == old(self).config)
            },
    {
        match custom_limits {
            Some(limits) => {
                let l: ChannelLimits = *limits;
                match (l.count_limits, l.pw_limits) {
                    (None, None) => Err(
                        Pca9685Error::InvalidConfiguration(ConfigFault::MissingRange),
                    ),
                    (Some(_), Some(_)) => Err(
                        Pca9685Error::InvalidConfiguration(ConfigFault::ConflictingRanges),
                    ),
                    (Some(c), None) => {
                        if c.min_on_count > c.max_on_count || c.max_on_count >= PCA_PWM_RESOLUTION {
                            Err(Pca9685Error::InvalidConfiguration(ConfigFault::InvalidCountRange))
                        } else {
                            self.config.custom_limits = Some(
                                ChannelLimits::from_count_limits(c.min_on_count, c.max_on_count),
                            );
                            Ok(self.config())
                        }
                    },
                    (None, Some(p)) => {
                        match self.clock_config.pw_to_count(p.min_on_ms) {
                            Ok(_) => {},
                            Err(e) => {
                                return Err(e);
                            },
                        }
                        match self.clock_config.pw_to_count(p.max_on_ms) {
                            Ok(_) => {},
                            Err(e) => {
                                return Err(e);
                            },
                        }
                        if p.min_on_ms.raw > p.max_on_ms.raw {
                            return Err(
                                Pca9685Error::InvalidConfiguration(
                                    ConfigFault::InvalidPulseWidthRange,
                                ),
                            );
                        }
                        self.config.custom_limits = Some(
                            ChannelLimits::from_pw_limits(p.min_on_ms, p.max_on_ms, self.clock_config),
                        );
                        Ok(self.config())
                    },
                }
            },
            None => {
                self.config.custom_limits = None;
                Ok(self.config())
            },
        }
    }

    /// Re-initializes the channel to its fresh state: unset output and no
    /// limits.  Purely in-memory — clearing a channel performs no hardware
    /// write.
    pub fn reset(&mut self)
        requires
            old(self).wf(),
        ensures
            final(self).wf(),
            final(self).clock_config == old(self).clock_config,
            final(self).config.channel == old(self).config.channel,
            final(self).config.current_count is None,
            final(self).config.custom_limits is None,
    {
        self.config.current_count = None;
        self.config.custom_limits = None;
    }

    /// Replaces the channel's limits from a desired configuration record.
    pub fn configure(&mut self, config: &ChannelConfig) -> (r: Result<ChannelConfig, Pca9685Error>)
        requires
            old(self).wf(),
        ensures
            final(self).wf(),
            final(self).clock_config == old(self).clock_config,
            final(self).config.channel == old(self).config.channel,
            final(self).config.current_count == old(self).config.current_count,
            config.custom_limits is None ==> (r matches Ok(cfg)
                && final(self).config.custom_limits is None && cfg == final(self).config),
            config.custom_limits matches Some(l) ==> {
                &&& candidate_valid(old(self).clock_config, l) ==> (r matches Ok(cfg) && final(self).config.custom_limits == Some(normalized_limits(old(self).clock_config, l)) && cfg
                    == final(self).config)
                &&& !candidate_valid(old(self).clock_config, l) ==> (r matches Err(e) && e
                    == candidate_error(old(self).clock_config, l) && final(self).config == old(self).config)
            },
    {
        self.configure_limits(&config.custom_limits)
    }

    /// Sets the channel to full, continuous output — the canonical count
    /// 4096 — bypassing any configured limits.  The record is updated only
    /// after the hardware write succeeds.
    pub fn full_on(&mut self, pca: &mut Pca9685Proxy) -> (r: Result<ChannelConfig, Pca9685Error>)
        requires
            old(self).wf(),
        ensures
            final(self).wf(),
            old(self).same_identity(*final(self)),
            old(pca).same_facts(*final(pca)),
            r matches Ok(cfg) ==> final(self).config.current_count == Some(PCA_PWM_RESOLUTION)
                && cfg == final(self).config,
            r matches Err(e) ==> e matches Pca9685Error::Pca9685DriverError(_) && final(self).config == old(self).config,
            old(pca).is_mock() ==> r is Ok && *final(pca) == *old(pca),
    {
        match pca.set_channel_full_on(self.config.channel) {
            Ok(()) => {
                self.config.current_count = Some(PCA_PWM_RESOLUTION);
                Ok(self.config())
            },
            Err(e) => Err(e),
        }
    }

    /// Sets the channel to no output (unset).  The record is updated only
    /// after the hardware write succeeds.
    pub fn full_off(&mut self, pca: &mut Pca9685Proxy) -> (r: Result<ChannelConfig, Pca9685Error>)
        requires
            old(self).wf(),
        ensures
            final(self).wf(),
            old(self).same_identity(*final(self)),
            old(pca).same_facts(*final(pca)),
            r matches Ok(cfg) ==> final(self).config.current_count is None && cfg == final(self).config,
            r matches Err(e) ==> e matches Pca9685Error::Pca9685DriverError(_) && final(self).config == old(self).config,
            old(pca).is_mock() ==> r is Ok && *final(pca) == *old(pca),
    {
        match pca.set_channel_full_off(self.config.channel) {
            Ok(()) => {
                self.config.current_count = None;
                Ok(self.config())
            },
            Err(e) => Err(e),
        }
    }

    /// Sets the channel's output to a raw count.
    ///
    /// Rejects — with the limits in force — any count outside them, before
    /// any hardware call.  The count 4096 is the full-on sentinel and is
    /// delegated to [`ChannelProxy::full_on`], never written as an off
    /// count.  The record is updated only after the hardware write succeeds.
    pub fn set_pwm_count(&mut self, pwm_off_count: u16, pca: &mut Pca9685Proxy) -> (r: Result<
        ChannelConfig,
        Pca9685Error,
    >)
        requires
            old(self).wf(),
        ensures
            final(self).wf(),
            old(self).same_identity(*final(self)),
            old(pca).same_facts(*final(pca)),
            !old(self).config.effective_counts().contains(pwm_off_count as int) ==> (r matches Err(
                e,
            ) && e == Pca9685Error::CustomLimitsError(
                pwm_off_count,
                old(self).config.effective_limits(),
            ) && final(self).config == old(self).config && *final(pca) == *old(pca)),
            old(self).config.effective_counts().contains(pwm_off_count as int) ==> {
                &&& (r matches Ok(cfg) ==> final(self).config.current_count == Some(pwm_off_count)
                    && cfg == final(self).config)
                &&& (r matches Err(e) ==> e matches Pca9685Error::Pca9685DriverError(_) && final(self).config == old(self).config)
                &&& (old(pca).is_mock() ==> r is Ok && *final(pca) == *old(pca))
            },
    {
        let limits: ChannelLimits = match &self.config.custom_limits {
            Some(l) => *l,
            None => Default::default(),
        };
        if !limits.is_valid(pwm_off_count) {
            return Err(Pca9685Error::CustomLimitsError(pwm_off_count, limits));
        }
        if pwm_off_count == PCA_PWM_RESOLUTION {
            self.full_on(pca)
        } else {
            match pca.set_channel_off_count(self.config.channel, pwm_off_count) {
                Ok(()) => {
                    self.config.current_count = Some(pwm_off_count);
                    Ok(self.config())
                },
                Err(e) => Err(e),
            }
        }
    }

    /// Sets the channel's output from a pulse width in milliseconds (held as
    /// nanoseconds): the width is converted through the clock — truncating —
    /// and the resulting count is set as by [`ChannelProxy::set_pwm_count`].
    pub fn set_pw_ms(&mut self, pw_ms: Millionths, pca: &mut Pca9685Proxy) -> (r: Result<
        ChannelConfig,
        Pca9685Error,
    >)
        requires
            old(self).wf(),
        ensures
            final(self).wf(),
            old(self).same_identity(*final(self)),
            old(pca).same_facts(*final(pca)),
            !old(self).clock_config.pw_in_range(pw_ms.raw as int) ==> (r matches Err(e) && e
                == Pca9685Error::PulseWidthRangeError(pw_ms, old(self).clock_config.max_pw())
                && final(self).config == old(self).config && *final(pca) == *old(pca)),
            old(self).clock_config.pw_in_range(pw_ms.raw as int) ==> {
                let count = old(self).clock_config.count_of(pw_ms.raw as int);
                &&& !old(self).config.effective_counts().contains(count) ==> (r matches Err(e) && e
                    == Pca9685Error::CustomLimitsError(
                    count as u16,
                    old(self).config.effective_limits(),
                ) && final(self).config == old(self).config && *final(pca) == *old(pca))
                &&& old(self).config.effective_counts().contains(count) ==> {
                    &&& (r matches Ok(cfg) ==> final(self).config.current_count == Some(
                        count as u16,
                    ) && cfg == final(self).config)
                    &&& (r matches Err(e) ==> e matches Pca9685Error::Pca9685DriverError(_)
                        && final(self).config == old(self).config)
                    &&& (old(pca).is_mock() ==> r is Ok && *final(pca) == *old(pca))
                }
            },
    {
        match self.clock_config.pw_to_count(pw_ms) {
            Ok(count) => self.set_pwm_count(count, pca),
            Err(e) => Err(e),
        }
    }

    /// Sets the channel's output from a duty-cycle fraction of its operating
    /// range (the configured limits, or the whole count space when none are
    /// configured): the fraction maps to
    /// `min + floor((max - min) * fraction)`, which always lies within the
    /// range, and is set as by [`ChannelProxy::set_pwm_count`].
    pub fn set_pct(&mut self, pct: Millionths, pca: &mut Pca9685Proxy) -> (r: Result<
        ChannelConfig,
        Pca9685Error,
    >)
        requires
            old(self).wf(),
        ensures
            final(self).wf(),
            old(self).same_identity(*final(self)),
            old(pca).same_facts(*final(pca)),
            !(0 <= pct.raw <= 1_000_000) ==> (r matches Err(e) && e
                == Pca9685Error::PercentOfRangeError(pct) && final(self).config == old(self).config
                && *final(pca) == *old(pca)),
            0 <= pct.raw <= 1_000_000 ==> {
                let count = old(self).config.effective_counts().pct_count_of(pct.raw as int);
                &&& (r matches Ok(cfg) ==> final(self).config.current_count == Some(count as u16)
                    && cfg == final(self).config)
                &&& (r matches Err(e) ==> e matches Pca9685Error::Pca9685DriverError(_) && final(self).config == old(self).config)
                &&& (old(pca).is_mock() ==> r is Ok && *final(pca) == *old(pca))
            },
    {
        let limits: ChannelLimits = match &self.config.custom_limits {
            Some(l) => *l,
            None => Default::default(),
        };
        match limits.pct_to_count(pct) {
            Ok(count) => self.set_pwm_count(count, pca),
            Err(e) => Err(e),
        }
    }
}

} // verus!
