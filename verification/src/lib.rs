//! Channel abstraction and conversion layer for a 16-channel, 12-bit PWM
//! peripheral driven over I2C.
//!
//! The library derives exact timing constants from a configured output
//! frequency, validates and stores per-channel operating limits, converts
//! between raw counts, pulse widths and percentages without losing precision,
//! and funnels every command through a single controller that owns the
//! hardware handle.  All duration and percentage arithmetic is done over
//! integers (see [`units::Millionths`]), so every conversion has an exact
//! mathematical contract.

pub mod channel;
pub mod clock;
pub mod controller;
pub mod device;
pub mod errors;
pub mod limits;
pub mod service;
pub mod units;

pub use channel::ChannelConfig;
pub use channel::ChannelProxy;
pub use clock::PcaClockConfig;
pub use controller::Config;
pub use controller::Pca9685Controller;
pub use device::OutputType;
pub use device::Pca9685Proxy;
pub use errors::ConfigFault;
pub use errors::Pca9685Error;
pub use errors::Pca9685Result;
pub use limits::ChannelCountLimits;
pub use limits::ChannelLimits;
pub use limits::ChannelMsLimits;
pub use service::ChannelCommand;
pub use service::CommandType;
pub use service::FaultKind;
pub use service::ServiceError;
pub use service::StatusResponse;
pub use units::Millionths;
pub use units::PCA_PWM_RESOLUTION;
