//! Wall switches.

use crate::driver::classes::{
    error_device, overridable_device, register_error, register_overridable, settle,
};
use crate::driver::overridable_device::{
    length, Action, Event, OverridableDevice, OverrideConfig, SettingStep, State, Step,
};
use crate::driver::ro_device::ReadOnlyDevice;
use crate::driver::{chars, views, Registration, RegistrationView};
use crate::time::Instant;
use vstd::prelude::*;

verus! {

/// What can be read from a switch, and set.
#[derive(Clone, Copy, Debug, PartialEq, Eq, Structural)]
pub struct SwitchProperty {
    pub state: bool,
}

/// The devices of a switch.
#[derive(Debug)]
pub struct Switch<S> {
    /// `true` when the driver has a problem communicating with the hardware.
    pub error: ReadOnlyDevice<bool>,
    /// The state of the switch. `true` turns it on and `false` turns it off.
    pub state: OverridableDevice<bool, S>,
}

/// The devices that a switch asks for.
pub open spec fn switch_devices(
    subpath: Option<Seq<char>>,
    cfg: OverrideConfig,
    max_history: Option<usize>,
) -> Seq<RegistrationView> {
    seq![
        error_device(subpath, max_history),
        overridable_device("state"@, subpath, None, cfg, max_history),
    ]
}

/// The step of a switch: a setting is handed out as it is, and the client is told
/// of it.
pub open spec fn switched<S>(step: SettingStep<bool, S>) -> Step<bool, S, SwitchProperty> {
    settle(step, |v: bool| v, |v: bool| SwitchProperty { state: v })
}

impl<S> Switch<S> {
    /// What `new` gives.
    pub open spec fn fresh(cfg: OverrideConfig, last: Option<bool>, now: Instant) -> Self {
        Switch {
            error: ReadOnlyDevice { last: None },
            state: OverridableDevice::fresh(last, cfg.override_duration, cfg.envelope, now),
        }
    }

    /// The devices to be registered, in this order; `next_registration` goes
    /// through them.
    pub fn register_devices<'a>(
        subpath: Option<&'a str>,
        cfg: &OverrideConfig,
        max_history: Option<usize>,
    ) -> (r: Vec<Registration<'a>>)
        ensures
            views(r@) == switch_devices(chars(subpath), *cfg, max_history),
    {
        let mut r: Vec<Registration<'a>> = Vec::new();
        r.push(register_error(subpath, max_history));
        r.push(register_overridable("state", subpath, None, cfg, max_history));
        assert(views(r@) =~= switch_devices(chars(subpath), *cfg, max_history));
        r
    }

    /// A switch whose devices have been registered. `last` is the state that the
    /// backend remembers.
    pub fn new(cfg: &OverrideConfig, last: Option<bool>, now: Instant) -> (r: Self)
        requires
            last is Some ==> now + length(cfg.envelope) <= Instant::MAX,
        ensures
            r == Self::fresh(*cfg, last, now),
            r.error.last is None,
            r.state.override_duration == cfg.override_duration,
            r.state.envelope == length(cfg.envelope),
            r.state.state == match last {
                Some(v) => r.state.applying_new(v, v, None, now),
                None => State::Unknown,
            },
    {
        Switch {
            error: ReadOnlyDevice::new(),
            state: OverridableDevice::new(last, cfg.override_duration, cfg.envelope, now),
        }
    }

    /// The value to be written to the backend before `report_update`.
    pub fn report_due(&self, prop: &SwitchProperty) -> (r: Option<bool>)
        ensures
            r == if self.state.reports(prop.state) {
                Some(prop.state)
            } else {
                None
            },
    {
        self.state.report_due(&prop.state)
    }

    /// Takes note of what the hardware says. Returns the client to be answered.
    pub fn report_update(&mut self, prop: SwitchProperty, now: Instant) -> (ack: Option<(S, bool)>)
        requires
            old(self).state.clock_fits(now),
        ensures
            final(self).error == old(self).error,
            final(self).state == old(self).state.with(
                old(self).state.after_reading(prop.state, now),
            ),
            ack == old(self).state.answered_by_reading(prop.state),
    {
        self.state.report_update(prop.state, now)
    }

    /// Tells whether there is a problem with the hardware. Returns the value to
    /// be written to the backend.
    pub fn report_error(&mut self, error: bool) -> (r: bool)
        ensures
            r == error,
            final(self).error.last == Some(error),
            final(self).state == old(self).state,
    {
        self.error.report_update(error)
    }

    /// Takes one step towards the next setting. A client whose setting is handed
    /// out is answered with it.
    pub fn next_setting(&mut self, event: Event<bool, S>, now: Instant) -> (step: Step<
        bool,
        S,
        SwitchProperty,
    >)
        requires
            old(self).state.accepts(event),
            old(self).state.step_fits(event, now),
        ensures
            final(self).error == old(self).error,
            ({
                let (state, inner) = old(self).state.on_event(event, now);
                &&& final(self).state == old(self).state.with(state)
                &&& step == switched(inner)
            }),
    {
        let inner = self.state.next_setting(event, now);
        match inner.action.into_result() {
            Ok((value, responder)) => Step {
                ack: match responder {
                    Some(s) => Some((s, value)),
                    None => None,
                },
                action: Action::Ready(SwitchProperty { state: value }),
            },
            Err(action) => Step { ack: inner.ack, action },
        }
    }

    /// Forgets all that is known of the hardware.
    pub fn reset_state(&mut self)
        ensures
            final(self).error == old(self).error,
            final(self).state == old(self).state.with(State::Unknown),
    {
        self.state.reset_state();
    }
}

} // verus!
