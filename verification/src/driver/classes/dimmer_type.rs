//! Wall dimmers.

use crate::device::Flt;
use crate::driver::classes::{
    error_device, overridable_device, register_error, register_overridable, settle,
};
use crate::driver::overridable_device::{
    length, Action, Event, OverridableDevice, OverrideConfig, SettingStep, State, Step,
};
use crate::driver::ro_device::ReadOnlyDevice;
use crate::driver::{chars, views, Registration, RegistrationView};
use crate::time::Instant;
use vstd::prelude::*;

verus! {

/// What can be read from a dimmer, and set.
#[derive(Clone, Copy, Debug, PartialEq, Eq, Structural)]
pub struct DimmerProperty {
    /// The brightness in percent.
    pub brightness: Flt,
}

/// The devices of a dimmer.
#[derive(Debug)]
pub struct Dimmer<S> {
    /// `true` when the driver has a problem communicating with the hardware.
    pub error: ReadOnlyDevice<bool>,
    /// The brightness of the dimmer. Off is 0.0 and full-on is 100.0.
    pub brightness: OverridableDevice<Flt, S>,
}

/// The devices that a dimmer asks for.
pub open spec fn dimmer_devices(
    subpath: Option<Seq<char>>,
    cfg: OverrideConfig,
    max_history: Option<usize>,
) -> Seq<RegistrationView> {
    seq![
        error_device(subpath, max_history),
        overridable_device("brightness"@, subpath, Some("%"@), cfg, max_history),
    ]
}

/// The step of a dimmer: a setting that is handed out is a percentage, and the
/// client is told of that.
pub open spec fn dimmed<S>(step: SettingStep<Flt, S>) -> Step<Flt, S, DimmerProperty> {
    settle(step, |v: Flt| v.clamped(), |v: Flt| DimmerProperty { brightness: v.clamped() })
}

impl<S> Dimmer<S> {
    /// What `new` gives.
    pub open spec fn fresh(cfg: OverrideConfig, last: Option<Flt>, now: Instant) -> Self {
        Dimmer {
            error: ReadOnlyDevice { last: None },
            brightness: OverridableDevice::fresh(last, cfg.override_duration, cfg.envelope, now),
        }
    }

    /// The devices to be registered, in this order; `next_registration` goes
    /// through them.
    pub fn register_devices<'a>(
        subpath: Option<&'a str>,
        cfg: &OverrideConfig,
        max_history: Option<usize>,
    ) -> (r: Vec<Registration<'a>>)
        ensures
            views(r@) == dimmer_devices(chars(subpath), *cfg, max_history),
    {
        let mut r: Vec<Registration<'a>> = Vec::new();
        r.push(register_error(subpath, max_history));
        r.push(register_overridable("brightness", subpath, Some("%"), cfg, max_history));
        assert(views(r@) =~= dimmer_devices(chars(subpath), *cfg, max_history));
        r
    }

    /// A dimmer whose devices have been registered. `last` is the brightness that the
    /// backend remembers.
    pub fn new(cfg: &OverrideConfig, last: Option<Flt>, now: Instant) -> (r: Self)
        requires
            last is Some ==> now + length(cfg.envelope) <= Instant::MAX,
        ensures
            r == Self::fresh(*cfg, last, now),
            r.error.last is None,
            r.brightness.override_duration == cfg.override_duration,
            r.brightness.envelope == length(cfg.envelope),
            r.brightness.state == match last {
                Some(v) => r.brightness.applying_new(v, v, None, now),
                None => State::Unknown,
            },
    {
        Dimmer {
            error: ReadOnlyDevice::new(),
            brightness: OverridableDevice::new(last, cfg.override_duration, cfg.envelope, now),
        }
    }

    /// The value to be written to the backend before `report_update`.
    pub fn report_due(&self, prop: &DimmerProperty) -> (r: Option<Flt>)
        ensures
            r == if self.brightness.reports(prop.brightness) {
                Some(prop.brightness)
            } else {
                None
            },
    {
        self.brightness.report_due(&prop.brightness)
    }

    /// Takes note of what the hardware says. Returns the client to be answered.
    pub fn report_update(&mut self, prop: DimmerProperty, now: Instant) -> (ack: Option<(S, Flt)>)
        requires
            old(self).brightness.clock_fits(now),
        ensures
            final(self).error == old(self).error,
            final(self).brightness == old(self).brightness.with(
                old(self).brightness.after_reading(prop.brightness, now),
            ),
            ack == old(self).brightness.answered_by_reading(prop.brightness),
    {
        self.brightness.report_update(prop.brightness, now)
    }

    /// Tells whether there is a problem with the hardware. Returns the value to
    /// be written to the backend.
    pub fn report_error(&mut self, error: bool) -> (r: bool)
        ensures
            r == error,
            final(self).error.last == Some(error),
            final(self).brightness == old(self).brightness,
    {
        self.error.report_update(error)
    }

    /// Takes one step towards the next setting. A setting that is handed out is
    /// restricted to 0.0 to 100.0, and its client is answered with the result.
    pub fn next_setting(&mut self, event: Event<Flt, S>, now: Instant) -> (step: Step<
        Flt,
        S,
        DimmerProperty,
    >)
        requires
            old(self).brightness.accepts(event),
            old(self).brightness.step_fits(event, now),
        ensures
            final(self).error == old(self).error,
            ({
                let (state, inner) = old(self).brightness.on_event(event, now);
                &&& final(self).brightness == old(self).brightness.with(state)
                &&& step == dimmed(inner)
            }),
    {
        let inner = self.brightness.next_setting(event, now);
        match inner.action.into_result() {
            Ok((value, responder)) => {
                let value = value.clamp_percent();
                Step {
                    ack: match responder {
                        Some(s) => Some((s, value)),
                        None => None,
                    },
                    action: Action::Ready(DimmerProperty { brightness: value }),
                }
            },
            Err(action) => Step { ack: inner.ack, action },
        }
    }

    /// Forgets all that is known of the hardware.
    pub fn reset_state(&mut self)
        ensures
            final(self).error == old(self).error,
            final(self).brightness == old(self).brightness.with(State::Unknown),
    {
        self.brightness.reset_state();
    }
}

/// The client is told what the hardware gets: the setting, restricted to 0.0 to
/// 100.0.
pub proof fn client_is_told_what_is_applied<S>(value: Flt, client: S)
    ensures
        ({
            let step = dimmed(Step { ack: None, action: Action::Ready((value, Some(client))) });
            &&& step.action == Action::<Flt, DimmerProperty>::Ready(
                DimmerProperty { brightness: value.clamped() },
            )
            &&& step.ack == Some((client, value.clamped()))
            &&& !value.is_nan() ==> !value.clamped().lt_num(Flt { bits: 0 })
                && !(Flt { bits: crate::device::HUNDRED_BITS }).lt_num(value.clamped())
        }),
{
}

} // verus!
