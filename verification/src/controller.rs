use vstd::prelude::*;

use crate::channel::candidate_error;
use crate::channel::candidate_ok;
use crate::channel::candidate_valid;
use crate::channel::normalized_limits;
use crate::channel::ChannelConfig;
use crate::channel::ChannelProxy;
use crate::clock::PcaClockConfig;
use crate::device::DeviceHandle;
use crate::device::OutputType;
use crate::device::Pca9685Proxy;
use crate::device::MAX_OUTPUT_FREQUENCY_HZ;
use crate::errors::Pca9685Error;
use crate::limits::ChannelLimits;
use crate::units::Millionths;
use crate::units::PCA_PWM_RESOLUTION;

verus! {

/// An immutable configuration of a [`Pca9685Controller`] device, as an external loader
/// provides it.
pub struct Config {
    /// Path to the I2C device file (e.g. /dev/i2c-1).
    pub device: String,
    /// Address of the peripheral (e.g. 0x40).
    pub address: u8,
    /// PWM output frequency.
    pub output_frequency_hz: u16,
    /// Open drain output stage (totem pole when unset).
    pub open_drain: bool,
    /// Initial per-channel configurations, applied in order at start-up.
    pub channels: Vec<ChannelConfig>,
}

/// Whether one initial per-channel entry can be applied: its channel exists,
/// and its limits, when given, are an acceptable candidate.
pub open spec fn entry_valid(clock: PcaClockConfig, entry: ChannelConfig) -> bool {
    &&& entry.channel < 16
    &&& (entry.custom_limits matches Some(l) ==> candidate_valid(clock, l))
}

/// The limits an initial entry list leaves on channel `ch` once applied in
/// order: the last entry addressing the channel wins, normalized; none
/// leaves the channel without custom limits.
pub open spec fn limits_after(
    clock: PcaClockConfig,
    entries: Seq<ChannelConfig>,
    ch: int,
) -> Option<ChannelLimits>
    decreases entries.len(),
{
    if entries.len() == 0 {
        None
    } else if entries.last().channel == ch {
        match entries.last().custom_limits {
            Option::Some(l) => Some(normalized_limits(clock, l)),
            Option::None => None,
        }
    } else {
        limits_after(clock, entries.drop_last(), ch)
    }
}

impl Config {
    /// The timing constants this configuration induces.
    pub open spec fn clock(self) -> PcaClockConfig {
        PcaClockConfig { output_frequency_hz: self.output_frequency_hz }
    }

    /// The frequency admits a cycle and a prescale, and every initial entry
    /// can be applied.
    pub open spec fn wf(self) -> bool {
        &&& 1 <= self.output_frequency_hz <= MAX_OUTPUT_FREQUENCY_HZ
        &&& forall|i: int|
            0 <= i < self.channels@.len() ==> entry_valid(self.clock(), #[trigger] self.channels@[i])
    }

    /// Decides [`Config::wf`] at run time, so that a caller can test a
    /// configuration before constructing a controller from it.
    pub fn check(&self) -> (ok: bool)
        ensures
            ok == self.wf(),
    {
        if self.output_frequency_hz < 1 || self.output_frequency_hz > MAX_OUTPUT_FREQUENCY_HZ {
            return false;
        }
        let clock = PcaClockConfig { output_frequency_hz: self.output_frequency_hz };
        let mut i: usize = 0;
        while i < self.channels.len()
            invariant
                i <= self.channels@.len(),
                clock == self.clock(),
                clock.wf(),
                forall|j: int|
                    0 <= j < i as int ==> entry_valid(self.clock(), #[trigger] self.channels@[j]),
            decreases self.channels@.len() - i as int,
        {
            let entry = &self.channels[i];
            if entry.channel >= 16 {
                return false;
            }
            match &entry.custom_limits {
                Some(l) => {
                    if !candidate_ok(&clock, l) {
                        return false;
                    }
                },
                None => {},
            }
            i = i + 1;
        }
        true
    }
}

/// Provides access to a PCA9685 controller, with the ability to customize
/// the operating range of each channel and set each channel's output using
/// raw counts, pulse width in milliseconds, or percent of the range.
///
/// The controller is the single entry point for every command: it owns the
/// hardware capability and all 16 channel records, and every operation takes
/// the controller exclusively, which serializes access to the one shared
/// peripheral.
pub struct Pca9685Controller {
    /// The hardware capability: a live device, or the no-op test double.
    pub inner: Pca9685Proxy,
    /// The 16 channel records, indexed by channel identifier.
    pub channels: Vec<ChannelProxy>,
}

impl Pca9685Controller {
    /// The timing constants of the configured device.
    pub open spec fn clock(self) -> PcaClockConfig {
        self.inner.clock()
    }

    /// Whether the capability is the no-op test double.
    pub open spec fn is_mock(self) -> bool {
        self.inner.is_mock()
    }

    /// The limits configured on a channel, if any.
    pub open spec fn channel_limits(self, ch: int) -> Option<ChannelLimits> {
        self.channels@[ch].config.custom_limits
    }

    /// The current output of a channel: `None` when unset, 4096 for full-on.
    pub open spec fn channel_count(self, ch: int) -> Option<u16> {
        self.channels@[ch].config.current_count
    }

    /// A healthy controller: a well-formed capability and 16 well-formed
    /// channel records, each carrying its own index and the device's clock.
    pub open spec fn wf(self) -> bool {
        &&& self.inner.wf()
        &&& self.channels@.len() == 16
        &&& forall|i: int|
            0 <= i < 16 ==> ((#[trigger] self.channels@[i]).wf() && self.channels@[i].config.channel
                == i && self.channels@[i].clock_config == self.clock())
    }

    /// Builds the channel table and applies the initial entries in order.
    /// Every entry of a well-formed configuration applies cleanly, so this
    /// cannot fail.
    fn init(config: &Config, inner: Pca9685Proxy) -> (r: Pca9685Controller)
        requires
            config.wf(),
            inner.wf(),
            inner.output_frequency_hz == config.output_frequency_hz,
        ensures
            r.wf(),
            r.inner == inner,
            forall|ch: int| 0 <= ch < 16 ==> #[trigger] r.channel_count(ch) is None,
            forall|ch: int|
                0 <= ch < 16 ==> #[trigger] r.channel_limits(ch) == limits_after(
                    config.clock(),
                    config.channels@,
                    ch,
                ),
    {
        let clock = PcaClockConfig { output_frequency_hz: config.output_frequency_hz };
        let mut channels: Vec<ChannelProxy> = Vec::new();
        let mut ch: u8 = 0;
        while ch < 16
            invariant
                ch <= 16,
                clock.wf(),
                channels@.len() == ch as int,
                forall|i: int|
                    0 <= i < ch as int ==> ((#[trigger] channels@[i]).wf()
                        && channels@[i].config.channel == i && channels@[i].clock_config == clock
                        && channels@[i].config.current_count is None
                        && channels@[i].config.custom_limits is None),
            decreases 16 - ch as int,
        {
            let cp = ChannelProxy::new(ch, clock);
            channels.push(cp);
            ch = ch + 1;
        }
        let mut i: usize = 0;
        while i < config.channels.len()
            invariant
                i <= config.channels@.len(),
                config.wf(),
                clock == config.clock(),
                clock.wf(),
                channels@.len() == 16,
                forall|c: int|
                    0 <= c < 16 ==> ((#[trigger] channels@[c]).wf() && channels@[c].config.channel
                        == c && channels@[c].clock_config == clock
                        && channels@[c].config.current_count is None),
                forall|c: int|
                    0 <= c < 16 ==> #[trigger] channels@[c].config.custom_limits == limits_after(
                        clock,
                        config.channels@.take(i as int),
                        c,
                    ),
            decreases config.channels@.len() - i as int,
        {
            let entry: ChannelConfig = config.channels[i];
            let idx: usize = entry.channel as usize;
            let ghost before = channels@;
            let mut cp = channels.remove(idx);
            let ghost cp0 = cp;
            let _ = cp.configure_limits(&entry.custom_limits);
            let ghost cp1 = cp;
            channels.insert(idx, cp);
            proof {
                let entries = config.channels@;
                let e_prev = entries.take(i as int);
                let e_now = entries.take(i as int + 1);
                assert(e_now.drop_last() =~= e_prev);
                assert(e_now.last() == entries[i as int]);
                assert(channels@ =~= before.update(idx as int, cp1));
                assert forall|c: int| 0 <= c < 16 implies #[trigger] channels@[c].config.custom_limits
                    == limits_after(clock, e_now, c) by {
                    if c == idx as int {
                        assert(channels@[c] == cp1);
                    } else {
                        assert(channels@[c] == before[c]);
                    }
                }
            }
            i = i + 1;
        }
        proof {
            assert(config.channels@.take(config.channels@.len() as int) =~= config.channels@);
        }
        Pca9685Controller { inner, channels }
    }

    /// Creates a new controller driving a live device.  The handle must
    /// already be open; the controller programs its prescale and output
    /// stage and enables it, failing only with a driver error if a bus
    /// transaction fails.
    pub fn new(config: &Config, device_handle: DeviceHandle) -> (r: Result<Pca9685Controller, Pca9685Error>)
        requires
            config.wf(),
        ensures
            r matches Ok(p) ==> {
                &&& p.wf()
                &&& !p.is_mock()
                &&& p.inner.device@ == config.device@
                &&& p.inner.address == config.address
                &&& p.inner.output_frequency_hz == config.output_frequency_hz
                &&& (forall|ch: int| 0 <= ch < 16 ==> #[trigger] p.channel_count(ch) is None)
                &&& (forall|ch: int|
                    0 <= ch < 16 ==> #[trigger] p.channel_limits(ch) == limits_after(
                        config.clock(),
                        config.channels@,
                        ch,
                    ))
            },
            r matches Err(e) ==> e matches Pca9685Error::Pca9685DriverError(_),
    {
        let proxy = Pca9685Proxy::new(
            device_handle,
            config.device.clone(),
            config.address,
            config.output_frequency_hz,
            config.open_drain,
        );
        match proxy {
            Ok(p) => Ok(Self::init(config, p)),
            Err(e) => Err(e),
        }
    }

    /// Creates a **mock** controller around the no-op test double: commands
    /// that would affect the device's output have no physical effect, and
    /// always succeed.
    pub fn mock(config: &Config) -> (r: Pca9685Controller)
        requires
            config.wf(),
        ensures
            r.wf(),
            r.is_mock(),
            r.inner.device@ == config.device@,
            r.inner.address == config.address,
            r.inner.output_frequency_hz == config.output_frequency_hz,
            r.inner.output_type == (if config.open_drain {
                OutputType::OpenDrain
            } else {
                OutputType::TotemPole
            }),
            forall|ch: int| 0 <= ch < 16 ==> #[trigger] r.channel_count(ch) is None,
            forall|ch: int|
                0 <= ch < 16 ==> #[trigger] r.channel_limits(ch) == limits_after(
                    config.clock(),
                    config.channels@,
                    ch,
                ),
    {
        let proxy = Pca9685Proxy::mock(
            config.device.clone(),
            config.address,
            config.output_frequency_hz,
            config.open_drain,
        );
        Self::init(config, proxy)
    }

    /// The longest representable pulse width given the configured output
    /// frequency, in nanoseconds (truncated).
    pub fn max_pw_ms(&self) -> (r: Millionths)
        requires
            self.wf(),
        ensures
            r == self.clock().max_pw(),
    {
        self.inner.max_pw_ms()
    }

    /// The duration of a single count given the configured output frequency,
    /// in nanoseconds (truncated).
    pub fn single_count_duration_ms(&self) -> (r: Millionths)
        requires
            self.wf(),
        ensures
            r.raw as int == self.clock().single_count_ns(),
    {
        self.inner.single_count_duration_ms()
    }

    /// The configured output frequency, in Hz.
    pub fn output_frequency_hz(&self) -> (r: u16)
        ensures
            r == self.inner.output_frequency_hz,
    {
        self.inner.output_frequency_hz()
    }

    /// The configured device file path.
    pub fn device(&self) -> (r: String)
        ensures
            r@ == self.inner.device@,
    {
        self.inner.device()
    }

    /// The configured address of the peripheral.
    pub fn address(&self) -> (r: u8)
        ensures
            r == self.inner.address,
    {
        self.inner.address()
    }

    /// The prescale derived from the configured output frequency.
    pub fn prescale(&self) -> (r: u8)
        ensures
            r == self.inner.prescale,
    {
        self.inner.prescale()
    }

    /// The configured output stage.
    pub fn output_type(&self) -> (r: OutputType)
        ensures
            r == self.inner.output_type,
    {
        self.inner.output_type()
    }

    /// The configuration of the requested channel.  Fails with
    /// [`Pca9685Error::NoSuchChannelError`] iff the channel lies outside
    /// [0, 16).
    pub fn config(&self, channel: u8) -> (r: Result<ChannelConfig, Pca9685Error>)
        requires
            self.wf(),
        ensures
            channel < 16 ==> r == Ok::<ChannelConfig, Pca9685Error>(
                self.channels@[channel as int].config,
            ),
            channel >= 16 ==> (r matches Err(e) && e == Pca9685Error::NoSuchChannelError(channel)),
    {
        if channel >= 16 {
            return Err(Pca9685Error::NoSuchChannelError(channel));
        }
        Ok(self.channels[channel as usize].config())
    }

    /// Replaces a channel's limits from a desired configuration record,
    /// without touching its output or the hardware.
    ///
    /// Fails with [`Pca9685Error::NoSuchChannelError`] iff the channel lies
    /// outside [0, 16); a present limits candidate must hold exactly one
    /// ordered, representable range form or is rejected with
    /// [`candidate_error`]; on success the stored limits are the canonical
    /// [`normalized_limits`] (or cleared, for an absent candidate) and the
    /// returned snapshot is the channel's new configuration.
    pub fn configure_channel(&mut self, config: ChannelConfig) -> (r: Result<
        ChannelConfig,
        Pca9685Error,
    >)
        requires
            old(self).wf(),
        ensures
            final(self).wf(),
            final(self).inner == old(self).inner,
            config.channel >= 16 ==> (r matches Err(e) && e == Pca9685Error::NoSuchChannelError(
                config.channel,
            ) && final(self).channels@ == old(self).channels@ && final(self).inner == old(self).inner),
            config.channel < 16 ==> {
                &&& (forall|c: int|
                    0 <= c < 16 && c != config.channel as int ==> final(self).channels@[c] == old(self).channels@[c])
                &&& final(self).channel_count(config.channel as int) == old(self).channel_count(
                    config.channel as int,
                )
                &&& (config.custom_limits is None ==> (r matches Ok(cfg) && final(self).channel_limits(config.channel as int) is None && cfg == final(self).channels@[config.channel as int].config))
                &&& (config.custom_limits matches Some(l) ==> {
                    &&& candidate_valid(old(self).clock(), l) ==> (r matches Ok(cfg) && final(self).channel_limits(config.channel as int) == Some(
                        normalized_limits(old(self).clock(), l),
                    ) && cfg == final(self).channels@[config.channel as int].config)
                    &&& !candidate_valid(old(self).clock(), l) ==> (r matches Err(e) && e
                        == candidate_error(old(self).clock(), l) && final(self).channels@ == old(self).channels@ && final(self).inner == old(self).inner)
                })
            },
    {
        if config.channel >= 16 {
            return Err(Pca9685Error::NoSuchChannelError(config.channel));
        }
        let idx: usize = config.channel as usize;
        let ghost before = self.channels@;
        let mut cp = self.channels.remove(idx);
        let ghost cp0 = cp;
        let r = cp.configure(&config);
        let ghost cp1 = cp;
        self.channels.insert(idx, cp);
        proof {
            assert(self.channels@ =~= before.update(idx as int, cp1));
            if cp1 == cp0 {
                assert(self.channels@ =~= before);
            }
        }
        r
    }

    /// Re-initializes a channel to its fresh state — unset output and no
    /// limits — without touching the hardware.
    ///
    /// Fails with [`Pca9685Error::NoSuchChannelError`] iff the channel lies
    /// outside [0, 16); otherwise it always succeeds and returns the
    /// channel's re-initialized configuration.
    pub fn reset_channel(&mut self, channel: u8) -> (r: Result<ChannelConfig, Pca9685Error>)
        requires
            old(self).wf(),
        ensures
            final(self).wf(),
            final(self).inner == old(self).inner,
            channel >= 16 ==> (r matches Err(e) && e == Pca9685Error::NoSuchChannelError(channel)
                && final(self).channels@ == old(self).channels@),
            channel < 16 ==> {
                &&& (forall|c: int|
                    0 <= c < 16 && c != channel as int ==> final(self).channels@[c] == old(
                        self,
                    ).channels@[c])
                &&& final(self).channel_limits(channel as int) is None
                &&& final(self).channel_count(channel as int) is None
                &&& r matches Ok(cfg) && cfg == final(self).channels@[channel as int].config
            },
    {
        if channel >= 16 {
            return Err(Pca9685Error::NoSuchChannelError(channel));
        }
        let idx: usize = channel as usize;
        let ghost before = self.channels@;
        let mut cp = self.channels.remove(idx);
        cp.reset();
        let cfg = cp.config();
        let ghost cp1 = cp;
        self.channels.insert(idx, cp);
        proof {
            assert(self.channels@ =~= before.update(idx as int, cp1));
        }
        Ok(cfg)
    }

    /// Sets a channel to full, continuous output (the canonical count 4096),
    /// bypassing any configured limits.
    ///
    /// Fails with [`Pca9685Error::NoSuchChannelError`] iff the channel lies
    /// outside [0, 16); otherwise only a failed bus transaction fails, the
    /// record is updated only after the write succeeds, and on the test
    /// double the command always succeeds.
    pub fn full_on(&mut self, channel: u8) -> (r: Result<ChannelConfig, Pca9685Error>)
        requires
            old(self).wf(),
        ensures
            final(self).wf(),
            old(self).inner.same_facts(final(self).inner),
            channel >= 16 ==> (r matches Err(e) && e == Pca9685Error::NoSuchChannelError(channel)
                && final(self).channels@ == old(self).channels@ && final(self).inner == old(self).inner),
            channel < 16 ==> {
                &&& (forall|c: int|
                    0 <= c < 16 && c != channel as int ==> final(self).channels@[c] == old(self).channels@[c])
                &&& final(self).channel_limits(channel as int) == old(self).channel_limits(
                    channel as int,
                )
                &&& (r matches Ok(cfg) ==> final(self).channel_count(channel as int) == Some(
                    PCA_PWM_RESOLUTION,
                ) && cfg == final(self).channels@[channel as int].config)
                &&& (r matches Err(e) ==> e matches Pca9685Error::Pca9685DriverError(_) && final(self).channels@ == old(self).channels@)
                &&& (old(self).is_mock() ==> r is Ok && final(self).inner == old(self).inner)
            },
    {
        if channel >= 16 {
            return Err(Pca9685Error::NoSuchChannelError(channel));
        }
        let idx: usize = channel as usize;
        let ghost before = self.channels@;
        let mut cp = self.channels.remove(idx);
        let ghost cp0 = cp;
        let r = cp.full_on(&mut self.inner);
        let ghost cp1 = cp;
        self.channels.insert(idx, cp);
        proof {
            assert(self.channels@ =~= before.update(idx as int, cp1));
            if cp1 == cp0 {
                assert(self.channels@ =~= before);
            }
        }
        r
    }

    /// Sets a channel to no output (unset), bypassing any configured limits.
    ///
    /// Fails with [`Pca9685Error::NoSuchChannelError`] iff the channel lies
    /// outside [0, 16); otherwise only a failed bus transaction fails, the
    /// record is updated only after the write succeeds, and on the test
    /// double the command always succeeds.
    pub fn full_off(&mut self, channel: u8) -> (r: Result<ChannelConfig, Pca9685Error>)
        requires
            old(self).wf(),
        ensures
            final(self).wf(),
            old(self).inner.same_facts(final(self).inner),
            channel >= 16 ==> (r matches Err(e) && e == Pca9685Error::NoSuchChannelError(channel)
                && final(self).channels@ == old(self).channels@ && final(self).inner == old(self).inner),
            channel < 16 ==> {
                &&& (forall|c: int|
                    0 <= c < 16 && c != channel as int ==> final(self).channels@[c] == old(self).channels@[c])
                &&& final(self).channel_limits(channel as int) == old(self).channel_limits(
                    channel as int,
                )
                &&& (r matches Ok(cfg) ==> final(self).channel_count(channel as int) is None && cfg
                    == final(self).channels@[channel as int].config)
                &&& (r matches Err(e) ==> e matches Pca9685Error::Pca9685DriverError(_) && final(self).channels@ == old(self).channels@)
                &&& (old(self).is_mock() ==> r is Ok && final(self).inner == old(self).inner)
            },
    {
        if channel >= 16 {
            return Err(Pca9685Error::NoSuchChannelError(channel));
        }
        let idx: usize = channel as usize;
        let ghost before = self.channels@;
        let mut cp = self.channels.remove(idx);
        let ghost cp0 = cp;
        let r = cp.full_off(&mut self.inner);
        let ghost cp1 = cp;
        self.channels.insert(idx, cp);
        proof {
            assert(self.channels@ =~= before.update(idx as int, cp1));
            if cp1 == cp0 {
                assert(self.channels@ =~= before);
            }
        }
        r
    }

    /// Sets a channel's output to a raw count.
    ///
    /// Fails with [`Pca9685Error::NoSuchChannelError`] iff the channel lies
    /// outside [0, 16), and with [`Pca9685Error::CustomLimitsError`] iff the
    /// count lies outside the limits in force — both before any hardware
    /// call.  The sentinel 4096 means full-on.  The record is updated only
    /// after the write succeeds, and on the test double a valid command
    /// always succeeds.
    pub fn set_pwm_count(&mut self, channel: u8, count: u16) -> (r: Result<
        ChannelConfig,
        Pca9685Error,
    >)
        requires
            old(self).wf(),
        ensures
            final(self).wf(),
            old(self).inner.same_facts(final(self).inner),
            channel >= 16 ==> (r matches Err(e) && e == Pca9685Error::NoSuchChannelError(channel)
                && final(self).channels@ == old(self).channels@ && final(self).inner == old(self).inner),
            channel < 16 ==> {
                let cp = old(self).channels@[channel as int];
                &&& (forall|c: int|
                    0 <= c < 16 && c != channel as int ==> final(self).channels@[c] == old(self).channels@[c])
                &&& final(self).channel_limits(channel as int) == old(self).channel_limits(
                    channel as int,
                )
                &&& (!cp.config.effective_counts().contains(count as int) ==> (r matches Err(e) && e
                    == Pca9685Error::CustomLimitsError(count, cp.config.effective_limits())
                    && final(self).channels@ == old(self).channels@ && final(self).inner == old(self).inner))
                &&& (cp.config.effective_counts().contains(count as int) ==> {
                    &&& (r matches Ok(cfg) ==> final(self).channel_count(channel as int) == Some(
                        count,
                    ) && cfg == final(self).channels@[channel as int].config)
                    &&& (r matches Err(e) ==> e matches Pca9685Error::Pca9685DriverError(_)
                        && final(self).channels@ == old(self).channels@)
                    &&& (old(self).is_mock() ==> r is Ok && final(self).inner == old(self).inner)
                })
            },
    {
        if channel >= 16 {
            return Err(Pca9685Error::NoSuchChannelError(channel));
        }
        let idx: usize = channel as usize;
        let ghost before = self.channels@;
        let mut cp = self.channels.remove(idx);
        let ghost cp0 = cp;
        let r = cp.set_pwm_count(count, &mut self.inner);
        let ghost cp1 = cp;
        self.channels.insert(idx, cp);
        proof {
            assert(self.channels@ =~= before.update(idx as int, cp1));
            if cp1 == cp0 {
                assert(self.channels@ =~= before);
            }
        }
        r
    }

    /// Sets a channel's output from a pulse width in milliseconds (held as
    /// nanoseconds), converting it through the clock (truncating) and then
    /// proceeding as [`Pca9685Controller::set_pwm_count`].
    ///
    /// Fails with [`Pca9685Error::NoSuchChannelError`] iff the channel lies
    /// outside [0, 16), with [`Pca9685Error::PulseWidthRangeError`] iff the
    /// width is negative or longer than one cycle, and with
    /// [`Pca9685Error::CustomLimitsError`] iff the converted count lies
    /// outside the limits in force — all before any hardware call.
    pub fn set_pw_ms(&mut self, channel: u8, pw_ms: Millionths) -> (r: Result<
        ChannelConfig,
        Pca9685Error,
    >)
        requires
            old(self).wf(),
        ensures
            final(self).wf(),
            old(self).inner.same_facts(final(self).inner),
            channel >= 16 ==> (r matches Err(e) && e == Pca9685Error::NoSuchChannelError(channel)
                && final(self).channels@ == old(self).channels@ && final(self).inner == old(self).inner),
            channel < 16 ==> {
                let cp = old(self).channels@[channel as int];
                let count = old(self).clock().count_of(pw_ms.raw as int);
                &&& (forall|c: int|
                    0 <= c < 16 && c != channel as int ==> final(self).channels@[c] == old(self).channels@[c])
                &&& final(self).channel_limits(channel as int) == old(self).channel_limits(
                    channel as int,
                )
                &&& (!old(self).clock().pw_in_range(pw_ms.raw as int) ==> (r matches Err(e) && e
                    == Pca9685Error::PulseWidthRangeError(pw_ms, old(self).clock().max_pw())
                    && final(self).channels@ == old(self).channels@ && final(self).inner == old(self).inner))
                &&& (old(self).clock().pw_in_range(pw_ms.raw as int) ==> {
                    &&& (!cp.config.effective_counts().contains(count) ==> (r matches Err(e) && e
                        == Pca9685Error::CustomLimitsError(
                        count as u16,
                        cp.config.effective_limits(),
                    ) && final(self).channels@ == old(self).channels@ && final(self).inner == old(self).inner))
                    &&& (cp.config.effective_counts().contains(count) ==> {
                        &&& (r matches Ok(cfg) ==> final(self).channel_count(channel as int)
                            == Some(count as u16) && cfg == final(self).channels@[channel as int].config)
                        &&& (r matches Err(e) ==> e matches Pca9685Error::Pca9685DriverError(_)
                            && final(self).channels@ == old(self).channels@)
                        &&& (old(self).is_mock() ==> r is Ok && final(self).inner == old(self).inner)
                    })
                })
            },
    {
        if channel >= 16 {
            return Err(Pca9685Error::NoSuchChannelError(channel));
        }
        let idx: usize = channel as usize;
        let ghost before = self.channels@;
        let mut cp = self.channels.remove(idx);
        let ghost cp0 = cp;
        let r = cp.set_pw_ms(pw_ms, &mut self.inner);
        let ghost cp1 = cp;
        self.channels.insert(idx, cp);
        proof {
            assert(self.channels@ =~= before.update(idx as int, cp1));
            if cp1 == cp0 {
                assert(self.channels@ =~= before);
            }
        }
        r
    }

    /// Sets a channel's output from a duty-cycle fraction of its operating
    /// range (the configured limits, or the whole count space when none are
    /// configured), mapping it to `min + floor((max - min) * fraction)` and
    /// then proceeding as [`Pca9685Controller::set_pwm_count`].
    ///
    /// Fails with [`Pca9685Error::NoSuchChannelError`] iff the channel lies
    /// outside [0, 16), and with [`Pca9685Error::PercentOfRangeError`] iff
    /// the fraction lies outside [0, 1] — both before any hardware call.
    /// The mapped count always lies within the range, so no limits error can
    /// occur.
    pub fn set_pct(&mut self, channel: u8, pct: Millionths) -> (r: Result<
        ChannelConfig,
        Pca9685Error,
    >)
        requires
            old(self).wf(),
        ensures
            final(self).wf(),
            old(self).inner.same_facts(final(self).inner),
            channel >= 16 ==> (r matches Err(e) && e == Pca9685Error::NoSuchChannelError(channel)
                && final(self).channels@ == old(self).channels@ && final(self).inner == old(self).inner),
            channel < 16 ==> {
                let cp = old(self).channels@[channel as int];
                let count = cp.config.effective_counts().pct_count_of(pct.raw as int);
                &&& (forall|c: int|
                    0 <= c < 16 && c != channel as int ==> final(self).channels@[c] == old(self).channels@[c])
                &&& final(self).channel_limits(channel as int) == old(self).channel_limits(
                    channel as int,
                )
                &&& (!(0 <= pct.raw <= 1_000_000) ==> (r matches Err(e) && e
                    == Pca9685Error::PercentOfRangeError(pct) && final(self).channels@ == old(self).channels@ && final(self).inner == old(self).inner))
                &&& (0 <= pct.raw <= 1_000_000 ==> {
                    &&& (r matches Ok(cfg) ==> final(self).channel_count(channel as int) == Some(
                        count as u16,
                    ) && cfg == final(self).channels@[channel as int].config)
                    &&& (r matches Err(e) ==> e matches Pca9685Error::Pca9685DriverError(_)
                        && final(self).channels@ == old(self).channels@)
                    &&& (old(self).is_mock() ==> r is Ok && final(self).inner == old(self).inner)
                })
            },
    {
        if channel >= 16 {
            return Err(Pca9685Error::NoSuchChannelError(channel));
        }
        let idx: usize = channel as usize;
        let ghost before = self.channels@;
        let mut cp = self.channels.remove(idx);
        let ghost cp0 = cp;
        let r = cp.set_pct(pct, &mut self.inner);
        let ghost cp1 = cp;
        self.channels.insert(idx, cp);
        proof {
            assert(self.channels@ =~= before.update(idx as int, cp1));
            if cp1 == cp0 {
                assert(self.channels@ =~= before);
            }
        }
        r
    }
}

} // verus!
