use vstd::prelude::*;

use crate::channel::candidate_error;
use crate::channel::candidate_valid;
use crate::channel::normalized_limits;
use crate::channel::ChannelConfig;
use crate::controller::Pca9685Controller;
use crate::errors::Pca9685Error;
use crate::units::Millionths;
use crate::units::PCA_PWM_RESOLUTION;

verus! {

broadcast use vstd::string::to_string_from_display_ensures_for_str;

/// Health of the running service.
#[allow(non_camel_case_types)]
#[derive(Clone, Copy, PartialEq, Eq, Structural, Debug)]
pub enum StatusType {
    HEALTHY,
    DEGRADED,
}

/// The running software, as reported by the status query.
#[derive(Debug)]
pub struct SoftwareStatus {
    pub version: String,
}

/// Answer to the status query: overall health and software version.
#[derive(Debug)]
pub struct StatusResponse {
    pub status: StatusType,
    pub software: SoftwareStatus,
}

/// How a command-surface error is surfaced to a transport: the three client
/// fault classes, and the one server fault class.
#[derive(Clone, Copy, PartialEq, Eq, Structural, Debug)]
pub enum FaultKind {
    /// The request itself is malformed or carries a value out of range.
    BadRequest,
    /// The addressed channel does not exist or is not configured.
    NotFound,
    /// The addressed channel is already configured.
    Conflict,
    /// The hardware driver failed.
    ServerFault,
}

/// The operations a channel can be commanded to perform.
#[derive(Clone, Copy, PartialEq, Eq, Structural, Debug)]
pub enum CommandType {
    FullOn,
    PulseCount,
    PulseWidth,
    Percent,
    FullOff,
}

/// A command addressed to one channel.  The three valued commands require
/// `value`; `FullOn` and `FullOff` forbid it.
#[derive(Clone, Copy, PartialEq, Debug)]
pub struct ChannelCommand {
    pub channel: u8,
    pub command_type: CommandType,
    pub value: Option<Millionths>,
}

/// An error of the command surface, carrying what a transport needs to
/// render a response.
#[derive(Debug)]
pub enum ServiceError {
    /// The command body addresses one channel, the request another.
    ChannelMismatch(u8, u8),
    /// The channel exists but has no custom limits configured.
    ChannelNotConfigured(u8),
    /// The channel already has custom limits configured.
    ChannelAlreadyConfigured(u8),
    /// A valued command came without a value.
    ValueRequired,
    /// A value came with a command that forbids one.
    ValueForbidden,
    /// The controller rejected the command.
    Command(Pca9685Error),
}

/// The fault class a controller error maps to: a driver failure is the
/// server's fault, a missing channel is not found, and every other
/// validation error is the client's.
pub open spec fn fault_kind_of(error: Pca9685Error) -> FaultKind {
    match error {
        Pca9685Error::Pca9685DriverError(_) => FaultKind::ServerFault,
        Pca9685Error::NoSuchChannelError(_) => FaultKind::NotFound,
        _ => FaultKind::BadRequest,
    }
}

/// Maps a controller error to its fault class.
pub fn extract_error(error: &Pca9685Error) -> (k: FaultKind)
    ensures
        k == fault_kind_of(*error),
{
    match error {
        Pca9685Error::Pca9685DriverError(_) => FaultKind::ServerFault,
        Pca9685Error::NoSuchChannelError(_) => FaultKind::NotFound,
        _ => FaultKind::BadRequest,
    }
}

impl ServiceError {
    /// The fault class of this error.
    pub open spec fn kind_spec(self) -> FaultKind {
        match self {
            ServiceError::ChannelMismatch(_, _) => FaultKind::BadRequest,
            ServiceError::ChannelNotConfigured(_) => FaultKind::NotFound,
            ServiceError::ChannelAlreadyConfigured(_) => FaultKind::Conflict,
            ServiceError::ValueRequired => FaultKind::BadRequest,
            ServiceError::ValueForbidden => FaultKind::BadRequest,
            ServiceError::Command(e) => fault_kind_of(e),
        }
    }

    /// The fault class of this error.
    pub fn kind(&self) -> (k: FaultKind)
        ensures
            k == self.kind_spec(),
    {
        match self {
            ServiceError::ChannelMismatch(_, _) => FaultKind::BadRequest,
            ServiceError::ChannelNotConfigured(_) => FaultKind::NotFound,
            ServiceError::ChannelAlreadyConfigured(_) => FaultKind::Conflict,
            ServiceError::ValueRequired => FaultKind::BadRequest,
            ServiceError::ValueForbidden => FaultKind::BadRequest,
            ServiceError::Command(e) => extract_error(e),
        }
    }
}

/// Answers the status query: the service is healthy and reports its
/// version.
pub fn get_status() -> (r: StatusResponse)
    ensures
        r.status is HEALTHY,
        r.software.version@ == "0.1.0"@,
{
    StatusResponse {
        status: StatusType::HEALTHY,
        software: SoftwareStatus { version: "0.1.0".to_string() },
    }
}

/// Checks that the channel a command body addresses matches the channel the
/// request addresses; a mismatch is the client's fault.
pub fn extract_channel(path_channel: u8, body_channel: u8) -> (r: Result<u8, ServiceError>)
    ensures
        body_channel == path_channel ==> r == Ok::<u8, ServiceError>(path_channel),
        body_channel != path_channel ==> (r matches Err(e) && e == ServiceError::ChannelMismatch(
            body_channel,
            path_channel,
        ) && e.kind_spec() == FaultKind::BadRequest),
{
    if path_channel != body_channel {
        return Err(ServiceError::ChannelMismatch(body_channel, path_channel));
    }
    Ok(path_channel)
}

/// Answers the per-channel configuration query.  Not found iff the channel
/// does not exist or has no custom limits configured.
pub fn get_channel_config(channel: u8, pca: &Pca9685Controller) -> (r: Result<
    ChannelConfig,
    ServiceError,
>)
    requires
        pca.wf(),
    ensures
        channel >= 16 ==> (r matches Err(e) && e == ServiceError::Command(
            Pca9685Error::NoSuchChannelError(channel),
        ) && e.kind_spec() == FaultKind::NotFound),
        channel < 16 ==> {
            &&& pca.channel_limits(channel as int) is Some ==> r == Ok::<
                ChannelConfig,
                ServiceError,
            >(pca.channels@[channel as int].config)
            &&& pca.channel_limits(channel as int) is None ==> (r matches Err(e) && e
                == ServiceError::ChannelNotConfigured(channel) && e.kind_spec()
                == FaultKind::NotFound)
        },
{
    match pca.config(channel) {
        Ok(cfg) => {
            match cfg.custom_limits {
                Some(_) => Ok(cfg),
                None => Err(ServiceError::ChannelNotConfigured(channel)),
            }
        },
        Err(e) => Err(ServiceError::Command(e)),
    }
}

/// Answers the channel query: the channel's configuration, or not found.
pub fn get_channel(channel: u8, pca: &Pca9685Controller) -> (r: Result<
    ChannelConfig,
    ServiceError,
>)
    requires
        pca.wf(),
    ensures
        channel >= 16 ==> (r matches Err(e) && e == ServiceError::Command(
            Pca9685Error::NoSuchChannelError(channel),
        ) && e.kind_spec() == FaultKind::NotFound),
        channel < 16 ==> {
            &&& pca.channel_limits(channel as int) is Some ==> r == Ok::<
                ChannelConfig,
                ServiceError,
            >(pca.channels@[channel as int].config)
            &&& pca.channel_limits(channel as int) is None ==> (r matches Err(e) && e
                == ServiceError::ChannelNotConfigured(channel) && e.kind_spec()
                == FaultKind::NotFound)
        },
{
    get_channel_config(channel, pca)
}

/// Creates a channel's limits configuration.
///
/// Not found iff the channel does not exist; a conflict iff the channel
/// already has limits configured (they must be cleared first); otherwise
/// the candidate is applied as by
/// [`Pca9685Controller::configure_channel`], and a malformed candidate is
/// the client's fault.
pub fn post_channel(command: ChannelConfig, pca: &mut Pca9685Controller) -> (r: Result<
    ChannelConfig,
    ServiceError,
>)
    requires
        old(pca).wf(),
    ensures
        final(pca).wf(),
        final(pca).inner == old(pca).inner,
        command.channel >= 16 ==> (r matches Err(e) && e == ServiceError::Command(
            Pca9685Error::NoSuchChannelError(command.channel),
        ) && e.kind_spec() == FaultKind::NotFound && final(pca).channels@ == old(pca).channels@),
        command.channel < 16 ==> {
            &&& old(pca).channel_limits(command.channel as int) is Some ==> (r matches Err(e) && e
                == ServiceError::ChannelAlreadyConfigured(command.channel) && e.kind_spec()
                == FaultKind::Conflict && final(pca).channels@ == old(pca).channels@)
            &&& old(pca).channel_limits(command.channel as int) is None ==> {
                &&& (forall|c: int|
                    0 <= c < 16 && c != command.channel as int ==> final(pca).channels@[c] == old(pca).channels@[c])
                &&& final(pca).channel_count(command.channel as int) == old(pca).channel_count(
                    command.channel as int,
                )
                &&& (command.custom_limits is None ==> (r matches Ok(cfg) && final(pca).channel_limits(command.channel as int) is None && cfg == final(pca).channels@[command.channel as int].config))
                &&& (command.custom_limits matches Some(l) ==> {
                    &&& candidate_valid(old(pca).clock(), l) ==> (r matches Ok(cfg) && final(pca).channel_limits(command.channel as int) == Some(
                        normalized_limits(old(pca).clock(), l),
                    ) && cfg == final(pca).channels@[command.channel as int].config)
                    &&& !candidate_valid(old(pca).clock(), l) ==> (r matches Err(e) && e
                        == ServiceError::Command(candidate_error(old(pca).clock(), l))
                        && e.kind_spec() == FaultKind::BadRequest && final(pca).channels@ == old(pca).channels@)
                })
            }
        },
{
    let existing = pca.config(command.channel);
    match existing {
        Ok(cfg) => {
            match cfg.custom_limits {
                Some(_) => Err(ServiceError::ChannelAlreadyConfigured(command.channel)),
                None => {
                    match pca.configure_channel(command) {
                        Ok(new_config) => Ok(new_config),
                        Err(e) => Err(ServiceError::Command(e)),
                    }
                },
            }
        },
        Err(e) => Err(ServiceError::Command(e)),
    }
}

/// Whether a command carries a value by its type.
pub open spec fn value_required(t: CommandType) -> bool {
    t is PulseCount || t is PulseWidth || t is Percent
}

/// The count a raw command value stands for: truncated toward zero and
/// saturated to the unsigned 16-bit count argument.
pub open spec fn command_count_spec(v: Millionths) -> int {
    if v.raw < 0 {
        0
    } else if (v.raw as int) / 1_000_000 > 65535 {
        65535
    } else {
        (v.raw as int) / 1_000_000
    }
}

/// Converts a raw command value to a count argument.
fn command_count(v: Millionths) -> (c: u16)
    ensures
        c as int == command_count_spec(v),
{
    if v.raw < 0 {
        return 0;
    }
    let q: u64 = (v.raw as u64) / 1_000_000;
    if q > 65535 {
        65535
    } else {
        q as u16
    }
}

/// Commands a channel: full on, full off, or one of the three valued
/// commands.
///
/// Bad request iff the body addresses a different channel than the request,
/// a valued command comes without a value, a value comes with `FullOn` or
/// `FullOff`, or the value itself is rejected by the conversion layer.  Not
/// found iff the channel does not exist: the channel must lie in [0, 16)
/// but need not have limits configured — a channel without custom limits is
/// commanded against the default range [0, 4096].  A driver failure is the
/// server's fault.  On the test double every well-formed command succeeds.
pub fn put_channel(channel: u8, command: &ChannelCommand, pca: &mut Pca9685Controller) -> (r:
    Result<ChannelConfig, ServiceError>)
    requires
        old(pca).wf(),
    ensures
        final(pca).wf(),
        old(pca).inner.same_facts(final(pca).inner),
        command.channel != channel ==> (r matches Err(e) && e == ServiceError::ChannelMismatch(
            command.channel,
            channel,
        ) && e.kind_spec() == FaultKind::BadRequest && final(pca).channels@ == old(pca).channels@
            && final(pca).inner == old(pca).inner),
        command.channel == channel && channel >= 16 ==> (r matches Err(e) && e
            == ServiceError::Command(Pca9685Error::NoSuchChannelError(channel)) && e.kind_spec()
            == FaultKind::NotFound && final(pca).channels@ == old(pca).channels@ && final(pca).inner
            == old(pca).inner),
        command.channel == channel && channel < 16 ==> {
            let cp = old(pca).channels@[channel as int];
            &&& (value_required(command.command_type) && command.value is None ==> (r matches Err(e)
                && e == ServiceError::ValueRequired && e.kind_spec() == FaultKind::BadRequest
                && final(pca).channels@ == old(pca).channels@ && final(pca).inner == old(pca).inner))
            &&& (!value_required(command.command_type) && command.value is Some ==> (r matches Err(
                e,
            ) && e == ServiceError::ValueForbidden && e.kind_spec() == FaultKind::BadRequest
                && final(pca).channels@ == old(pca).channels@ && final(pca).inner == old(pca).inner))
            &&& ((value_required(command.command_type) <==> command.value is Some) ==> {
                &&& (forall|c: int|
                    0 <= c < 16 && c != channel as int ==> final(pca).channels@[c] == old(pca).channels@[c])
                &&& final(pca).channel_limits(channel as int) == old(pca).channel_limits(
                    channel as int,
                )
                &&& (r matches Err(e) ==> e.kind_spec() == FaultKind::BadRequest || e.kind_spec()
                    == FaultKind::ServerFault)
                &&& (r matches Err(e) && e.kind_spec() == FaultKind::BadRequest ==> final(pca).channels@ == old(pca).channels@ && final(pca).inner == old(pca).inner)
                &&& (r matches Err(e) ==> (e.kind_spec() == FaultKind::ServerFault ==> (e
                    matches ServiceError::Command(inner) && inner matches
                    Pca9685Error::Pca9685DriverError(_) && final(pca).channels@ == old(
                    pca,
                ).channels@)))
                &&& (command.command_type is FullOn ==> {
                    &&& (r matches Ok(cfg) ==> final(pca).channel_count(channel as int) == Some(
                        PCA_PWM_RESOLUTION,
                    ) && cfg == final(pca).channels@[channel as int].config)
                    &&& (old(pca).is_mock() ==> r is Ok)
                })
                &&& (command.command_type is FullOff ==> {
                    &&& (r matches Ok(cfg) ==> final(pca).channel_count(channel as int) is None
                        && cfg == final(pca).channels@[channel as int].config)
                    &&& (old(pca).is_mock() ==> r is Ok)
                })
                &&& (command.command_type is PulseCount ==> {
                    let count = command_count_spec(command.value.unwrap());
                    &&& (!cp.config.effective_counts().contains(count) ==> (r matches Err(e) && e
                        == ServiceError::Command(
                        Pca9685Error::CustomLimitsError(
                            count as u16,
                            cp.config.effective_limits(),
                        ),
                    )))
                    &&& (cp.config.effective_counts().contains(count) ==> {
                        &&& (r matches Ok(cfg) ==> final(pca).channel_count(channel as int) == Some(
                            count as u16,
                        ) && cfg == final(pca).channels@[channel as int].config)
                        &&& (old(pca).is_mock() ==> r is Ok)
                    })
                })
                &&& (command.command_type is PulseWidth ==> {
                    let pw = command.value.unwrap();
                    let count = old(pca).clock().count_of(pw.raw as int);
                    &&& (!old(pca).clock().pw_in_range(pw.raw as int) ==> (r matches Err(e) && e
                        == ServiceError::Command(
                        Pca9685Error::PulseWidthRangeError(pw, old(pca).clock().max_pw()),
                    )))
                    &&& (old(pca).clock().pw_in_range(pw.raw as int)
                        && !cp.config.effective_counts().contains(count) ==> (r matches Err(e) && e
                        == ServiceError::Command(
                        Pca9685Error::CustomLimitsError(
                            count as u16,
                            cp.config.effective_limits(),
                        ),
                    )))
                    &&& (old(pca).clock().pw_in_range(pw.raw as int)
                        && cp.config.effective_counts().contains(count) ==> {
                        &&& (r matches Ok(cfg) ==> final(pca).channel_count(channel as int) == Some(
                            count as u16,
                        ) && cfg == final(pca).channels@[channel as int].config)
                        &&& (old(pca).is_mock() ==> r is Ok)
                    })
                })
                &&& (command.command_type is Percent ==> {
                    let pct = command.value.unwrap();
                    let count = cp.config.effective_counts().pct_count_of(pct.raw as int);
                    &&& (!(0 <= pct.raw <= 1_000_000) ==> (r matches Err(e) && e
                        == ServiceError::Command(Pca9685Error::PercentOfRangeError(pct))))
                    &&& (0 <= pct.raw <= 1_000_000 ==> {
                        &&& (r matches Ok(cfg) ==> final(pca).channel_count(channel as int) == Some(
                            count as u16,
                        ) && cfg == final(pca).channels@[channel as int].config)
                        &&& (old(pca).is_mock() ==> r is Ok)
                    })
                })
            })
        },
{
    let ch: u8 = match extract_channel(channel, command.channel) {
        Ok(c) => c,
        Err(e) => {
            return Err(e);
        },
    };
    if ch >= 16 {
        return Err(ServiceError::Command(Pca9685Error::NoSuchChannelError(ch)));
    }
    let value: Millionths = match command.command_type {
        CommandType::PulseCount | CommandType::PulseWidth | CommandType::Percent => {
            match command.value {
                Some(v) => v,
                None => {
                    return Err(ServiceError::ValueRequired);
                },
            }
        },
        _ => {
            match command.value {
                Some(_) => {
                    return Err(ServiceError::ValueForbidden);
                },
                None => Millionths { raw: 0 },
            }
        },
    };
    let command_result = match command.command_type {
        CommandType::FullOn => pca.full_on(ch),
        CommandType::FullOff => pca.full_off(ch),
        CommandType::PulseCount => pca.set_pwm_count(ch, command_count(value)),
        CommandType::PulseWidth => pca.set_pw_ms(ch, value),
        CommandType::Percent => pca.set_pct(ch, value),
    };
    match command_result {
        Ok(cfg) => Ok(cfg),
        Err(e) => Err(ServiceError::Command(e)),
    }
}

/// Clears a channel, re-initializing it to its fresh state: unset output
/// and no limits.
///
/// Not found iff the channel does not exist or has no custom limits
/// configured; otherwise the limits are cleared and the current output is
/// reset to unset, all in memory — no hardware write is performed.
pub fn delete_channel(channel: u8, pca: &mut Pca9685Controller) -> (r: Result<
    ChannelConfig,
    ServiceError,
>)
    requires
        old(pca).wf(),
    ensures
        final(pca).wf(),
        final(pca).inner == old(pca).inner,
        channel >= 16 ==> (r matches Err(e) && e == ServiceError::Command(
            Pca9685Error::NoSuchChannelError(channel),
        ) && e.kind_spec() == FaultKind::NotFound && final(pca).channels@ == old(pca).channels@),
        channel < 16 && old(pca).channel_limits(channel as int) is None ==> (r matches Err(e) && e
            == ServiceError::ChannelNotConfigured(channel) && e.kind_spec() == FaultKind::NotFound
            && final(pca).channels@ == old(pca).channels@),
        channel < 16 && old(pca).channel_limits(channel as int) is Some ==> {
            &&& (forall|c: int|
                0 <= c < 16 && c != channel as int ==> final(pca).channels@[c] == old(pca).channels@[c])
            &&& final(pca).channel_limits(channel as int) is None
            &&& final(pca).channel_count(channel as int) is None
            &&& r matches Ok(cfg) && cfg == final(pca).channels@[channel as int].config
        },
{
    match get_channel_config(channel, pca) {
        Ok(_) => {},
        Err(e) => {
            return Err(e);
        },
    }
    match pca.reset_channel(channel) {
        Ok(cfg) => Ok(cfg),
        Err(e) => Err(ServiceError::Command(e)),
    }
}

} // verus!
