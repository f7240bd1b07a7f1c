//! The common classes of hardware.
//!
//! A driver for one of these uses the class in place of devices of its own, so
//! that all hardware of a class looks the same to its clients.

use crate::driver::overridable_device::{Action, OverrideConfig, SettingStep, Step};
use crate::driver::{Channel, Registration, RegistrationView};
use vstd::prelude::*;

pub mod class_laws;
pub mod colorbulb_type;
pub mod dimmer_type;
pub mod switch_type;

verus! {

/// The device with which every class tells that the driver has a problem
/// communicating with the hardware.
pub open spec fn error_device(
    subpath: Option<Seq<char>>,
    max_history: Option<usize>,
) -> RegistrationView {
    RegistrationView {
        name: "error"@,
        subpath,
        units: None,
        channel: Channel::ReadOnly,
        max_history,
    }
}

/// A settable device with the timeouts of `cfg`.
pub open spec fn overridable_device(
    name: Seq<char>,
    subpath: Option<Seq<char>>,
    units: Option<Seq<char>>,
    cfg: OverrideConfig,
    max_history: Option<usize>,
) -> RegistrationView {
    RegistrationView {
        name,
        subpath,
        units,
        channel: Channel::Overridable {
            override_duration: cfg.override_duration,
            envelope: cfg.envelope,
        },
        max_history,
    }
}

/// Asks for the error device.
pub fn register_error<'a>(subpath: Option<&'a str>, max_history: Option<usize>) -> (r: Registration<
    'a,
>)
    ensures
        r@ == error_device(crate::driver::chars(subpath), max_history),
{
    Registration { name: "error", subpath, units: None, channel: Channel::ReadOnly, max_history }
}

/// Asks for a settable device.
pub fn register_overridable<'a>(
    name: &'static str,
    subpath: Option<&'a str>,
    units: Option<&'static str>,
    cfg: &OverrideConfig,
    max_history: Option<usize>,
) -> (r: Registration<'a>)
    ensures
        r@ == overridable_device(
            name@,
            crate::driver::chars(subpath),
            crate::driver::chars(units),
            *cfg,
            max_history,
        ),
{
    Registration {
        name,
        subpath,
        units,
        channel: Channel::Overridable {
            override_duration: cfg.override_duration,
            envelope: cfg.envelope,
        },
        max_history,
    }
}

/// An action that gives no result, whatever the type of the results is.
pub open spec fn carried<T, O, P>(action: Action<T, O>) -> Action<T, P> {
    match action {
        Action::Report(v) => Action::Report(v),
        Action::ReportAt(v, at) => Action::ReportAt(v, at),
        Action::Wait(d) => Action::Wait(d),
        Action::Again => Action::Again,
        Action::Ready(_) => arbitrary(),
        Action::Finished => Action::Finished,
    }
}

impl<T, O> Action<T, O> {
    /// The result of an action, or the action if it gives none.
    pub fn into_result<P>(self) -> (r: Result<O, Action<T, P>>)
        ensures
            r == match self {
                Action::Ready(o) => Ok(o),
                _ => Err(carried::<T, O, P>(self)),
            },
    {
        match self {
            Action::Report(v) => Err(Action::Report(v)),
            Action::ReportAt(v, at) => Err(Action::ReportAt(v, at)),
            Action::Wait(d) => Err(Action::Wait(d)),
            Action::Again => Err(Action::Again),
            Action::Ready(o) => Ok(o),
            Action::Finished => Err(Action::Finished),
        }
    }
}

/// The answer to a client that is to be told `value`.
pub open spec fn answer<T, S>(responder: Option<S>, value: T) -> Option<(S, T)> {
    match responder {
        Some(s) => Some((s, value)),
        None => None,
    }
}

/// The step that makes `result` of the setting that a step gives, and tells the
/// client `applied` of it. A step that gives no setting stays as it is.
pub open spec fn settle<T, S, O>(
    step: SettingStep<T, S>,
    applied: spec_fn(T) -> T,
    result: spec_fn(T) -> O,
) -> Step<T, S, O> {
    match step.action {
        Action::Ready((value, responder)) => Step {
            ack: answer(responder, applied(value)),
            action: Action::Ready(result(value)),
        },
        _ => Step { ack: step.ack, action: carried(step.action) },
    }
}

} // verus!
