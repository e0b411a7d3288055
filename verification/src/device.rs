use vstd::prelude::*;

use vstd::arithmetic::div_mod::lemma_div_by_self;
use vstd::arithmetic::div_mod::lemma_div_is_ordered;
use vstd::arithmetic::div_mod::lemma_div_multiples_vanish;

use crate::clock::PcaClockConfig;
use crate::clock::NANOS_PER_SECOND;
use crate::errors::Pca9685Error;
use crate::units::Millionths;
use crate::units::PCA_PWM_RESOLUTION;

verus! {

// ---------------------------------------------------------------------------
// Declarations of the outside types that the hardware capability holds or
// returns.  They are opaque to the verifier: values of them are only carried
// through, never inspected.
// ---------------------------------------------------------------------------

/// Declares `pwm_pca9685::Pca9685`, the I2C driver for the peripheral.
#[verifier::external_type_specification]
#[verifier::external_body]
#[verifier::reject_recursive_types(I2C)]
pub struct ExPcaDevice<I2C>(pwm_pca9685::Pca9685<I2C>);

/// Declares `linux_embedded_hal::I2cdev`, the Linux I2C bus handle.
#[verifier::external_type_specification]
#[verifier::external_body]
pub struct ExI2cdev(linux_embedded_hal::I2cdev);

/// Declares `pwm_pca9685::Error`, the driver's error type.
#[verifier::external_type_specification]
#[verifier::external_body]
#[verifier::reject_recursive_types(E)]
pub struct ExPcaError<E>(pwm_pca9685::Error<E>);

/// Declares `linux_embedded_hal::I2CError`, the bus error type.
#[verifier::external_type_specification]
#[verifier::external_body]
pub struct ExI2CError(linux_embedded_hal::I2CError);

/// The error a failed register write surfaces to this library.
pub type DriverError = pwm_pca9685::Error<linux_embedded_hal::I2CError>;

/// The concrete device handle the live variant of the capability owns.
pub type DeviceHandle = pwm_pca9685::Pca9685<linux_embedded_hal::I2cdev>;

// ---------------------------------------------------------------------------
// Trusted wrappers, one per outside call.  Nothing is promised of a register
// write's outcome: the bus may fail, and every caller states what holds of
// its state whatever came back.
// ---------------------------------------------------------------------------

/// Relies on `pwm_pca9685::Pca9685::set_channel_on_off`: writes the on and
/// off counters of one channel; the on counter is always 0 here.  Relies on
/// `pwm_pca9685::Channel::try_from`, which accepts every value below 16.
#[verifier::external_body]
fn dev_set_channel_on_off(dev: &mut DeviceHandle, channel: u8, off: u16) -> (r: Result<
    (),
    DriverError,
>)
    requires
        channel < 16,
{
    let ch = pwm_pca9685::Channel::try_from(channel).unwrap();
    dev.set_channel_on_off(ch, 0, off)
}

/// Relies on `pwm_pca9685::Pca9685::set_channel_full_on`: latches one channel
/// fully on, with no turn-on delay.  Relies on
/// `pwm_pca9685::Channel::try_from`, which accepts every value below 16.
#[verifier::external_body]
fn dev_set_channel_full_on(dev: &mut DeviceHandle, channel: u8) -> (r: Result<(), DriverError>)
    requires
        channel < 16,
{
    let ch = pwm_pca9685::Channel::try_from(channel).unwrap();
    dev.set_channel_full_on(ch, 0)
}

/// Relies on `pwm_pca9685::Pca9685::set_channel_full_off`: latches one
/// channel fully off.  Relies on `pwm_pca9685::Channel::try_from`, which
/// accepts every value below 16.
#[verifier::external_body]
fn dev_set_channel_full_off(dev: &mut DeviceHandle, channel: u8) -> (r: Result<(), DriverError>)
    requires
        channel < 16,
{
    let ch = pwm_pca9685::Channel::try_from(channel).unwrap();
    dev.set_channel_full_off(ch)
}

/// Relies on `pwm_pca9685::Pca9685::set_prescale`: programs the frequency
/// divider; the driver itself rejects a prescale below 3.
#[verifier::external_body]
fn dev_set_prescale(dev: &mut DeviceHandle, prescale: u8) -> (r: Result<(), DriverError>) {
    dev.set_prescale(prescale)
}

/// Relies on `pwm_pca9685::Pca9685::set_output_driver`: selects the open
/// drain or totem pole output stage.
#[verifier::external_body]
fn dev_set_output_driver(dev: &mut DeviceHandle, open_drain: bool) -> (r: Result<
    (),
    DriverError,
>) {
    let driver = if open_drain {
        pwm_pca9685::OutputDriver::OpenDrain
    } else {
        pwm_pca9685::OutputDriver::TotemPole
    };
    dev.set_output_driver(driver)
}

/// Relies on `pwm_pca9685::Pca9685::enable`: wakes the device's oscillator.
#[verifier::external_body]
fn dev_enable(dev: &mut DeviceHandle) -> (r: Result<(), DriverError>) {
    dev.enable()
}

// ---------------------------------------------------------------------------
// The hardware capability: a live-device variant and a test-double variant,
// indistinguishable to callers except through `is_mock`.
// ---------------------------------------------------------------------------

/// The output stage configuration of the device.
#[derive(Clone, Copy, PartialEq, Eq, Structural, Debug)]
pub enum OutputType {
    /// Totem pole output stage (the default).
    TotemPole,
    /// Open drain output stage.
    OpenDrain,
}

/// The internal oscillator runs at 25 MHz.
pub const INTERNAL_OSC_HZ: u64 = 25_000_000;

/// The largest output frequency whose rounded prescale is still at least 1;
/// beyond it the prescale computation would fall below zero.
pub const MAX_OUTPUT_FREQUENCY_HZ: u16 = 12207;

/// The hardware prescale derived from an output frequency, per the device
/// datasheet: `round(osc / (4096 * hz)) - 1`, with the rounded quotient
/// saturated to the 8-bit register before the subtraction.
pub open spec fn prescale_of(hz: int) -> int {
    let divisor = (PCA_PWM_RESOLUTION as int) * hz;
    let rounded = ((INTERNAL_OSC_HZ as int) + divisor / 2) / divisor;
    (if rounded > 255 {
        255int
    } else {
        rounded
    }) - 1
}

/// Computes the hardware prescale for an output frequency.
///
/// The divisor is even, so adding half of it before a floor division rounds
/// the quotient to the nearest integer (and the quotient is never exactly
/// halfway, because 4096 does not divide twice the oscillator frequency).
pub fn calculate_prescale(output_frequency_hz: u16) -> (r: u8)
    requires
        1 <= output_frequency_hz <= MAX_OUTPUT_FREQUENCY_HZ,
    ensures
        r as int == prescale_of(output_frequency_hz as int),
{
    let hz: u64 = output_frequency_hz as u64;
    let divisor: u64 = (PCA_PWM_RESOLUTION as u64) * hz;
    proof {
        lemma_prescale_at_least_one(hz as int);
    }
    let rounded: u64 = (INTERNAL_OSC_HZ + divisor / 2) / divisor;
    let clamped: u64 = if rounded > 255 {
        255
    } else {
        rounded
    };
    (clamped - 1) as u8
}

/// Below the frequency cap, the rounded quotient of the prescale formula is
/// at least 1, so the trailing subtraction cannot fall below zero.
proof fn lemma_prescale_at_least_one(hz: int)
    requires
        1 <= hz <= MAX_OUTPUT_FREQUENCY_HZ,
    ensures
        ((PCA_PWM_RESOLUTION as int) * hz) / 2 == 2048 * hz,
        1 <= ((INTERNAL_OSC_HZ as int) + ((PCA_PWM_RESOLUTION as int) * hz) / 2) / ((
        PCA_PWM_RESOLUTION as int) * hz),
{
    let divisor = (PCA_PWM_RESOLUTION as int) * hz;
    assert(divisor == 2 * (2048 * hz));
    lemma_div_multiples_vanish(2048 * hz, 2);
    let numerator = (INTERNAL_OSC_HZ as int) + divisor / 2;
    assert(divisor <= numerator);
    lemma_div_by_self(divisor);
    lemma_div_is_ordered(divisor, numerator, divisor);
}

/// Performs the actual register writes for one shared peripheral, or — as a
/// no-op test double, selected at construction — succeeds trivially; also
/// reports the device's static facts.
pub struct Pca9685Proxy {
    /// Path of the I2C device file the peripheral sits behind.
    pub device: String,
    /// I2C address of the peripheral.
    pub address: u8,
    /// Configured PWM output frequency.
    pub output_frequency_hz: u16,
    /// Prescale programmed at start-up, derived from the frequency.
    pub prescale: u8,
    /// Output stage configuration programmed at start-up.
    pub output_type: OutputType,
    /// The live device handle, or `None` for the test double.
    pub inner: Option<DeviceHandle>,
}

impl Pca9685Proxy {
    /// The frequency lies where a cycle exists and a prescale can be derived,
    /// and the stored prescale is the derived one.
    pub open spec fn wf(self) -> bool {
        &&& 1 <= self.output_frequency_hz <= MAX_OUTPUT_FREQUENCY_HZ
        &&& self.prescale as int == prescale_of(self.output_frequency_hz as int)
    }

    /// Whether this is the no-op test double.
    pub open spec fn is_mock(self) -> bool {
        self.inner is None
    }

    /// The timing constants this device's frequency induces.
    pub open spec fn clock(self) -> PcaClockConfig {
        PcaClockConfig { output_frequency_hz: self.output_frequency_hz }
    }

    /// The static facts two capability values share when only the live
    /// handle's internal state may have moved.
    pub open spec fn same_facts(self, other: Self) -> bool {
        &&& self.device@ == other.device@
        &&& self.address == other.address
        &&& self.output_frequency_hz == other.output_frequency_hz
        &&& self.prescale == other.prescale
        &&& self.output_type == other.output_type
        &&& self.is_mock() == other.is_mock()
    }

    /// Builds the no-op test double: every write succeeds trivially and the
    /// static facts report the given configuration.
    pub fn mock(device: String, address: u8, output_frequency_hz: u16, open_drain: bool) -> (r:
        Pca9685Proxy)
        requires
            1 <= output_frequency_hz <= MAX_OUTPUT_FREQUENCY_HZ,
        ensures
            r.wf(),
            r.is_mock(),
            r.device@ == device@,
            r.address == address,
            r.output_frequency_hz == output_frequency_hz,
            r.output_type == (if open_drain {
                OutputType::OpenDrain
            } else {
                OutputType::TotemPole
            }),
    {
        let prescale = calculate_prescale(output_frequency_hz);
        Pca9685Proxy {
            device,
            address,
            output_frequency_hz,
            prescale,
            output_type: if open_drain {
                OutputType::OpenDrain
            } else {
                OutputType::TotemPole
            },
            inner: None,
        }
    }

    /// Takes ownership of an opened device handle and programs it: prescale,
    /// output stage, then enable.  Fails with
    /// [`Pca9685Error::Pca9685DriverError`] — and only with it — if a bus
    /// transaction fails.
    pub fn new(
        device_handle: DeviceHandle,
        device: String,
        address: u8,
        output_frequency_hz: u16,
        open_drain: bool,
    ) -> (r: Result<Pca9685Proxy, Pca9685Error>)
        requires
            1 <= output_frequency_hz <= MAX_OUTPUT_FREQUENCY_HZ,
        ensures
            r matches Ok(p) ==> {
                &&& p.wf()
                &&& !p.is_mock()
                &&& p.device@ == device@
                &&& p.address == address
                &&& p.output_frequency_hz == output_frequency_hz
                &&& p.output_type == (if open_drain {
                    OutputType::OpenDrain
                } else {
                    OutputType::TotemPole
                })
            },
            r matches Err(e) ==> e matches Pca9685Error::Pca9685DriverError(_),
    {
        let prescale = calculate_prescale(output_frequency_hz);
        let mut dev = device_handle;
        match dev_set_prescale(&mut dev, prescale) {
            Ok(()) => {},
            Err(e) => {
                return Err(Pca9685Error::Pca9685DriverError(e));
            },
        }
        match dev_set_output_driver(&mut dev, open_drain) {
            Ok(()) => {},
            Err(e) => {
                return Err(Pca9685Error::Pca9685DriverError(e));
            },
        }
        match dev_enable(&mut dev) {
            Ok(()) => {},
            Err(e) => {
                return Err(Pca9685Error::Pca9685DriverError(e));
            },
        }
        Ok(
            Pca9685Proxy {
                device,
                address,
                output_frequency_hz,
                prescale,
                output_type: if open_drain {
                    OutputType::OpenDrain
                } else {
                    OutputType::TotemPole
                },
                inner: Some(dev),
            },
        )
    }

    /// The longest representable pulse width, in nanoseconds (truncated).
    pub fn max_pw_ms(&self) -> (r: Millionths)
        requires
            self.wf(),
        ensures
            r == self.clock().max_pw(),
    {
        let clock = PcaClockConfig { output_frequency_hz: self.output_frequency_hz };
        clock.max_pw_millionths()
    }

    /// The duration of a single count, in nanoseconds (truncated).
    pub fn single_count_duration_ms(&self) -> (r: Millionths)
        requires
            self.wf(),
        ensures
            r.raw as int == self.clock().single_count_ns(),
    {
        proof {
            vstd::arithmetic::div_mod::lemma_div_pos_is_pos(
                NANOS_PER_SECOND as int,
                (PCA_PWM_RESOLUTION as int) * (self.output_frequency_hz as int),
            );
            vstd::arithmetic::div_mod::lemma_div_nonincreasing(
                NANOS_PER_SECOND as int,
                (PCA_PWM_RESOLUTION as int) * (self.output_frequency_hz as int),
            );
        }
        let divisor: u64 = (PCA_PWM_RESOLUTION as u64) * (self.output_frequency_hz as u64);
        let single: u64 = NANOS_PER_SECOND / divisor;
        Millionths { raw: single as i64 }
    }

    /// The configured output frequency, in Hz.
    pub fn output_frequency_hz(&self) -> (r: u16)
        ensures
            r == self.output_frequency_hz,
    {
        self.output_frequency_hz
    }

    /// The configured device file path.
    pub fn device(&self) -> (r: String)
        ensures
            r@ == self.device@,
    {
        self.device.clone()
    }

    /// The configured I2C address.
    pub fn address(&self) -> (r: u8)
        ensures
            r == self.address,
    {
        self.address
    }

    /// The prescale derived from the configured output frequency.
    pub fn prescale(&self) -> (r: u8)
        ensures
            r == self.prescale,
    {
        self.prescale
    }

    /// The configured output stage.
    pub fn output_type(&self) -> (r: OutputType)
        ensures
            r == self.output_type,
    {
        self.output_type
    }

    /// Writes the off-count of one channel (the on-count is always 0).  On
    /// the test double this trivially succeeds; on the live device the bus
    /// may fail, and then the error is a driver error.
    pub fn set_channel_off_count(&mut self, channel: u8, off: u16) -> (r: Result<
        (),
        Pca9685Error,
    >)
        requires
            channel < 16,
            off < PCA_PWM_RESOLUTION,
        ensures
            old(self).same_facts(*final(self)),
            old(self).is_mock() ==> r is Ok && *final(self) == *old(self),
            r matches Err(e) ==> e matches Pca9685Error::Pca9685DriverError(_),
    {
        match self.inner.take() {
            Some(dev) => {
                let mut dev = dev;
                let result = dev_set_channel_on_off(&mut dev, channel, off);
                self.inner = Some(dev);
                match result {
                    Ok(()) => Ok(()),
                    Err(e) => Err(Pca9685Error::Pca9685DriverError(e)),
                }
            },
            None => Ok(()),
        }
    }

    /// Latches one channel fully on.  On the test double this trivially
    /// succeeds; on the live device the bus may fail, and then the error is
    /// a driver error.
    pub fn set_channel_full_on(&mut self, channel: u8) -> (r: Result<(), Pca9685Error>)
        requires
            channel < 16,
        ensures
            old(self).same_facts(*final(self)),
            old(self).is_mock() ==> r is Ok && *final(self) == *old(self),
            r matches Err(e) ==> e matches Pca9685Error::Pca9685DriverError(_),
    {
        match self.inner.take() {
            Some(dev) => {
                let mut dev = dev;
                let result = dev_set_channel_full_on(&mut dev, channel);
                self.inner = Some(dev);
                match result {
                    Ok(()) => Ok(()),
                    Err(e) => Err(Pca9685Error::Pca9685DriverError(e)),
                }
            },
            None => Ok(()),
        }
    }

    /// Latches one channel fully off.  On the test double this trivially
    /// succeeds; on the live device the bus may fail, and then the error is
    /// a driver error.
    pub fn set_channel_full_off(&mut self, channel: u8) -> (r: Result<(), Pca9685Error>)
        requires
            channel < 16,
        ensures
            old(self).same_facts(*final(self)),
            old(self).is_mock() ==> r is Ok && *final(self) == *old(self),
            r matches Err(e) ==> e matches Pca9685Error::Pca9685DriverError(_),
    {
        match self.inner.take() {
            Some(dev) => {
                let mut dev = dev;
                let result = dev_set_channel_full_off(&mut dev, channel);
                self.inner = Some(dev);
                match result {
                    Ok(()) => Ok(()),
                    Err(e) => Err(Pca9685Error::Pca9685DriverError(e)),
                }
            },
            None => Ok(()),
        }
    }
}

} // verus!
