use vstd::prelude::*;

use crate::device::DriverError;
use crate::limits::ChannelLimits;
use crate::units::Millionths;

verus! {

/// Why a limits specification was rejected as malformed.
#[derive(Clone, Copy, PartialEq, Eq, Structural, Debug)]
pub enum ConfigFault {
    /// Neither a count range nor a pulse-width range was supplied.
    MissingRange,
    /// Both a count range and a pulse-width range were supplied.
    ConflictingRanges,
    /// The supplied count range is not ordered or leaves the count space.
    InvalidCountRange,
    /// The supplied pulse-width range is not ordered.
    InvalidPulseWidthRange,
}

/// The possible errors that may occur when commanding the [`Pca9685`]
/// controller.
///
/// [`Pca9685`]: crate::controller::Pca9685
#[derive(Debug)]
pub enum Pca9685Error {
    /// The channel identifier lies outside [0, 16).
    NoSuchChannelError(u8),
    /// A pulse width lies outside what the device can represent: the value,
    /// and the longest representable pulse width.
    PulseWidthRangeError(Millionths, Millionths),
    /// A count lies outside a channel's operating range: the value, and the
    /// limits in force.
    CustomLimitsError(u16, ChannelLimits),
    /// A limits specification was malformed.
    InvalidConfiguration(ConfigFault),
    /// A duty-cycle fraction lies outside [0, 1].
    PercentOfRangeError(Millionths),
    /// The underlying driver failed a bus transaction.
    Pca9685DriverError(DriverError),
}

/// Customized [`Result`], where the error type is [`Pca9685Error`].
pub type Pca9685Result<T> = Result<T, Pca9685Error>;

} // verus!
