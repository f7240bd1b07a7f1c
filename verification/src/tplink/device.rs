//! The devices of the driver.

use crate::device::{Flt, ReadWriteCompat};
use crate::driver::classes::dimmer_type::{dimmer_devices, Dimmer, DimmerProperty};
use crate::driver::classes::switch_type::{switch_devices, Switch};
use crate::driver::classes::{overridable_device, register_overridable, settle};
use crate::driver::overridable_device::{
    length, Action, Event, OverridableDevice, OverrideConfig, State, Step,
};
use crate::driver::{chars, views, Registration, RegistrationView};
use crate::time::{from_secs, Duration, Instant, NANOS_PER_SEC};
use crate::tplink::config::{DevCfgType, Params};
use vstd::prelude::*;

verus! {

/// What a client has set.
#[derive(Clone, Copy, Debug, PartialEq, Eq, Structural)]
pub enum Setting {
    Dimmer(DimmerProperty),
    Indicator(bool),
}

/// A dimmer that has an indicator light.
#[derive(Debug)]
pub struct DimmerWithIndicator<S> {
    pub dimmer: Dimmer<S>,
    pub indicator: OverridableDevice<bool, S>,
}

/// An event that happens to one of the two.
#[derive(Debug)]
pub enum Input<S> {
    Dimmer(Event<Flt, S>),
    Indicator(Event<bool, S>),
}

/// The step that follows. The two go on independently of each other, and the
/// first setting that comes of either is the result.
#[derive(Debug)]
pub enum Output<S> {
    Dimmer(Step<Flt, S, Setting>),
    /// There will be no more settings for the dimmer: the indicator goes on alone.
    DimmerDone,
    /// Once the indicator is finished, so is the whole, whatever the dimmer does.
    Indicator(Step<bool, S, Setting>),
}

/// The devices that a dimmer with an indicator asks for.
pub open spec fn dimmer_with_indicator_devices(
    subpath: Option<Seq<char>>,
    cfg: OverrideConfig,
    max_history: Option<usize>,
) -> Seq<RegistrationView> {
    dimmer_devices(subpath, cfg, max_history).push(
        overridable_device("indicator"@, subpath, None, cfg, max_history),
    )
}

impl<S> DimmerWithIndicator<S> {
    /// What `new` gives.
    pub open spec fn fresh(
        cfg: OverrideConfig,
        last_brightness: Option<Flt>,
        last_indicator: Option<bool>,
        now: Instant,
    ) -> Self {
        DimmerWithIndicator {
            dimmer: Dimmer::fresh(cfg, last_brightness, now),
            indicator: OverridableDevice::fresh(
                last_indicator,
                cfg.override_duration,
                cfg.envelope,
                now,
            ),
        }
    }

    /// Both after a reading of the dimmer, and the client to be answered.
    pub open spec fn after_update(self, prop: DimmerProperty, now: Instant) -> (
        Self,
        Option<(S, Flt)>,
    ) {
        let brightness = self.dimmer.brightness.with(
            self.dimmer.brightness.after_reading(prop.brightness, now),
        );
        (
            DimmerWithIndicator { dimmer: Dimmer { brightness, ..self.dimmer }, ..self },
            self.dimmer.brightness.answered_by_reading(prop.brightness),
        )
    }

    /// Whether `input` can happen now.
    pub open spec fn accepts(self, input: Input<S>, now: Instant) -> bool {
        match input {
            Input::Dimmer(e) => self.dimmer.brightness.accepts(e)
                && self.dimmer.brightness.step_fits(e, now),
            Input::Indicator(e) => self.indicator.accepts(e) && self.indicator.step_fits(e, now),
        }
    }

    /// Both after an event, and the step that follows.
    pub open spec fn after_input(self, input: Input<S>, now: Instant) -> (Self, Output<S>) {
        match input {
            Input::Dimmer(e) => {
                let (state, inner) = self.dimmer.brightness.on_event(e, now);
                let dimmer = Dimmer { brightness: self.dimmer.brightness.with(state), ..self.dimmer };
                (
                    DimmerWithIndicator { dimmer, ..self },
                    if inner.action is Finished {
                        Output::DimmerDone
                    } else {
                        Output::Dimmer(
                            settle(
                                inner,
                                |v: Flt| v.clamped(),
                                |v: Flt|
                                    Setting::Dimmer(DimmerProperty { brightness: v.clamped() }),
                            ),
                        )
                    },
                )
            },
            Input::Indicator(e) => {
                let (state, inner) = self.indicator.on_event(e, now);
                (
                    DimmerWithIndicator { indicator: self.indicator.with(state), ..self },
                    Output::Indicator(
                        settle(inner, |v: bool| v, |v: bool| Setting::Indicator(v)),
                    ),
                )
            },
        }
    }

    /// The devices to be registered, in this order; `next_registration` goes
    /// through them.
    pub fn register_devices<'a>(
        subpath: Option<&'a str>,
        cfg: &OverrideConfig,
        max_history: Option<usize>,
    ) -> (r: Vec<Registration<'a>>)
        ensures
            views(r@) == dimmer_with_indicator_devices(chars(subpath), *cfg, max_history),
    {
        let mut r = Dimmer::<S>::register_devices(subpath, cfg, max_history);
        let ghost dimmer = views(r@);
        r.push(register_overridable("indicator", subpath, None, cfg, max_history));
        assert(views(r@) =~= dimmer.push(r@.last()@));
        r
    }

    /// A dimmer and an indicator whose devices have been registered, with the
    /// values that the backend remembers.
    pub fn new(
        cfg: &OverrideConfig,
        last_brightness: Option<Flt>,
        last_indicator: Option<bool>,
        now: Instant,
    ) -> (r: Self)
        requires
            last_brightness is Some || last_indicator is Some ==> now + length(cfg.envelope)
                <= Instant::MAX,
        ensures
            r == Self::fresh(*cfg, last_brightness, last_indicator, now),
            r.dimmer.error.last is None,
            r.dimmer.brightness.override_duration == cfg.override_duration,
            r.dimmer.brightness.envelope == length(cfg.envelope),
            r.dimmer.brightness.state == match last_brightness {
                Some(v) => r.dimmer.brightness.applying_new(v, v, None, now),
                None => State::Unknown,
            },
            r.indicator.override_duration == cfg.override_duration,
            r.indicator.envelope == length(cfg.envelope),
            r.indicator.state == match last_indicator {
                Some(v) => r.indicator.applying_new(v, v, None, now),
                None => State::Unknown,
            },
    {
        DimmerWithIndicator {
            dimmer: Dimmer::new(cfg, last_brightness, now),
            indicator: OverridableDevice::new(
                last_indicator,
                cfg.override_duration,
                cfg.envelope,
                now,
            ),
        }
    }

    /// The value to be written to the backend before `report_update`.
    pub fn report_due(&self, prop: &DimmerProperty) -> (r: Option<Flt>)
        ensures
            r == if self.dimmer.brightness.reports(prop.brightness) {
                Some(prop.brightness)
            } else {
                None
            },
    {
        self.dimmer.report_due(prop)
    }

    /// Takes note of what the dimmer says. Returns the client to be answered.
    pub fn report_update(&mut self, prop: DimmerProperty, now: Instant) -> (ack: Option<(S, Flt)>)
        requires
            old(self).dimmer.brightness.clock_fits(now),
        ensures
            (*final(self), ack) == old(self).after_update(prop, now),
            final(self).indicator == old(self).indicator,
            final(self).dimmer.error == old(self).dimmer.error,
            final(self).dimmer.brightness == old(self).dimmer.brightness.with(
                old(self).dimmer.brightness.after_reading(prop.brightness, now),
            ),
            ack == old(self).dimmer.brightness.answered_by_reading(prop.brightness),
    {
        self.dimmer.report_update(prop, now)
    }

    /// Takes one step towards the next setting of either. A client whose setting
    /// is handed out is answered with it.
    pub fn next_setting(&mut self, input: Input<S>, now: Instant) -> (output: Output<S>)
        requires
            old(self).accepts(input, now),
        ensures
            (*final(self), output) == old(self).after_input(input, now),
    {
        match input {
            Input::Dimmer(event) => {
                let inner = self.dimmer.next_setting(event, now);
                match inner.action.into_result() {
                    Ok(prop) => Output::Dimmer(
                        Step { ack: inner.ack, action: Action::Ready(Setting::Dimmer(prop)) },
                    ),
                    Err(Action::Finished) => Output::DimmerDone,
                    Err(action) => Output::Dimmer(Step { ack: inner.ack, action }),
                }
            },
            Input::Indicator(event) => {
                let inner = self.indicator.next_setting(event, now);
                match inner.action.into_result() {
                    Ok((value, resp)) => Output::Indicator(
                        Step {
                            ack: match resp {
                                Some(s) => Some((s, value)),
                                None => None,
                            },
                            action: Action::Ready(Setting::Indicator(value)),
                        },
                    ),
                    Err(action) => Output::Indicator(Step { ack: inner.ack, action }),
                }
            },
        }
    }

    /// Both, with nothing known of the hardware.
    pub open spec fn forgotten(self) -> Self {
        DimmerWithIndicator {
            dimmer: Dimmer {
                brightness: self.dimmer.brightness.with(State::Unknown),
                ..self.dimmer
            },
            indicator: self.indicator.with(State::Unknown),
        }
    }

    /// Forgets all that is known of the hardware.
    pub fn reset_state(&mut self)
        ensures
            *final(self) == old(self).forgotten(),
    {
        self.dimmer.reset_state();
        self.indicator.reset_state();
    }
}

/// The devices of an instance of the driver: it is either a switch (or an outlet)
/// or a dimmer.
#[derive(Debug)]
pub enum DeviceSet<S> {
    Switch(Switch<S>),
    Dimmer(DimmerWithIndicator<S>),
}

/// The settle period of the hardware, in seconds.
pub const ENVELOPE_SECS: u64 = 5;

/// The timeouts that follow from the configuration.
pub open spec fn override_cfg(cfg: Params) -> OverrideConfig {
    OverrideConfig {
        override_duration: match cfg.override_timeout {
            Some(minutes) => Some((minutes * 60 * NANOS_PER_SEC) as Duration),
            None => None,
        },
        envelope: Some((ENVELOPE_SECS * NANOS_PER_SEC) as Duration),
    }
}

/// Whether a device has just been made, with the configured timeouts and the
/// value that the backend remembers.
pub open spec fn started<T: ReadWriteCompat, S>(
    dev: OverridableDevice<T, S>,
    cfg: Params,
    last: Option<T>,
    now: Instant,
) -> bool {
    &&& dev.override_duration == override_cfg(cfg).override_duration
    &&& dev.envelope == length(override_cfg(cfg).envelope)
    &&& dev.state == match last {
        Some(v) => dev.applying_new(v, v, None, now),
        None => State::Unknown,
    }
}

/// Whether the number of seconds in the configured timeout can be shown.
pub open spec fn timeout_fits(cfg: Params) -> bool {
    cfg.override_timeout matches Some(minutes) ==> minutes * 60 <= u64::MAX
}

impl<S> DeviceSet<S> {
    /// What `new` gives.
    pub open spec fn fresh(
        cfg: Params,
        last_state: Option<bool>,
        last_brightness: Option<Flt>,
        last_indicator: Option<bool>,
        now: Instant,
    ) -> Self {
        match cfg.dev_type {
            DevCfgType::Switch | DevCfgType::Outlet => DeviceSet::Switch(
                Switch::fresh(override_cfg(cfg), last_state, now),
            ),
            DevCfgType::Dimmer => DeviceSet::Dimmer(
                DimmerWithIndicator::fresh(
                    override_cfg(cfg),
                    last_brightness,
                    last_indicator,
                    now,
                ),
            ),
        }
    }

    /// The devices that a configuration asks for.
    pub open spec fn devices(
        subpath: Option<Seq<char>>,
        cfg: Params,
        max_history: Option<usize>,
    ) -> Seq<RegistrationView> {
        match cfg.dev_type {
            DevCfgType::Switch | DevCfgType::Outlet => switch_devices(
                subpath,
                override_cfg(cfg),
                max_history,
            ),
            DevCfgType::Dimmer => dimmer_with_indicator_devices(
                subpath,
                override_cfg(cfg),
                max_history,
            ),
        }
    }

    /// The devices, with nothing known of the hardware.
    pub open spec fn forgotten(self) -> Self {
        match self {
            DeviceSet::Switch(dev) => DeviceSet::Switch(
                Switch { state: dev.state.with(State::Unknown), ..dev },
            ),
            DeviceSet::Dimmer(dev) => DeviceSet::Dimmer(dev.forgotten()),
        }
    }

    /// The timeouts that follow from the configuration.
    pub fn override_config(cfg: &Params) -> (r: OverrideConfig)
        requires
            timeout_fits(*cfg),
        ensures
            r == override_cfg(*cfg),
    {
        OverrideConfig {
            override_duration: match cfg.override_timeout {
                Some(minutes) => Some(from_secs(60 * minutes)),
                None => None,
            },
            envelope: Some(from_secs(ENVELOPE_SECS)),
        }
    }

    /// The devices to be registered, in this order; `next_registration` goes
    /// through them.
    pub fn register_devices<'a>(
        subpath: Option<&'a str>,
        cfg: &Params,
        max_history: Option<usize>,
    ) -> (r: Vec<Registration<'a>>)
        requires
            timeout_fits(*cfg),
        ensures
            views(r@) == Self::devices(chars(subpath), *cfg, max_history),
            views(r@) == match cfg.dev_type {
                DevCfgType::Switch | DevCfgType::Outlet => switch_devices(
                    chars(subpath),
                    override_cfg(*cfg),
                    max_history,
                ),
                DevCfgType::Dimmer => dimmer_with_indicator_devices(
                    chars(subpath),
                    override_cfg(*cfg),
                    max_history,
                ),
            },
    {
        let override_cfg = Self::override_config(cfg);
        match cfg.dev_type {
            DevCfgType::Switch | DevCfgType::Outlet => Switch::<S>::register_devices(
                subpath,
                &override_cfg,
                max_history,
            ),
            DevCfgType::Dimmer => DimmerWithIndicator::<S>::register_devices(
                subpath,
                &override_cfg,
                max_history,
            ),
        }
    }

    /// The devices of an instance that have been registered, with the values that
    /// the backend remembers.
    pub fn new(
        cfg: &Params,
        last_state: Option<bool>,
        last_brightness: Option<Flt>,
        last_indicator: Option<bool>,
        now: Instant,
    ) -> (r: Self)
        requires
            timeout_fits(*cfg),
            last_state is Some || last_brightness is Some || last_indicator is Some ==> now
                + ENVELOPE_SECS * NANOS_PER_SEC <= Instant::MAX,
        ensures
            r == Self::fresh(*cfg, last_state, last_brightness, last_indicator, now),
            match r {
                DeviceSet::Switch(dev) => {
                    &&& cfg.dev_type != DevCfgType::Dimmer
                    &&& dev.error.last is None
                    &&& started(dev.state, *cfg, last_state, now)
                },
                DeviceSet::Dimmer(dev) => {
                    &&& cfg.dev_type == DevCfgType::Dimmer
                    &&& dev.dimmer.error.last is None
                    &&& started(dev.dimmer.brightness, *cfg, last_brightness, now)
                    &&& started(dev.indicator, *cfg, last_indicator, now)
                },
            },
    {
        let override_cfg = Self::override_config(cfg);
        match cfg.dev_type {
            DevCfgType::Switch | DevCfgType::Outlet => DeviceSet::Switch(
                Switch::new(&override_cfg, last_state, now),
            ),
            DevCfgType::Dimmer => DeviceSet::Dimmer(
                DimmerWithIndicator::new(&override_cfg, last_brightness, last_indicator, now),
            ),
        }
    }

    /// Forgets all that is known of the hardware, for when it gets rebooted.
    pub fn reset_state(&mut self)
        ensures
            *final(self) == old(self).forgotten(),
            match *old(self) {
                DeviceSet::Switch(dev) => *final(self) == DeviceSet::Switch(
                    Switch { state: dev.state.with(State::Unknown), ..dev },
                ),
                DeviceSet::Dimmer(dev) => *final(self) == DeviceSet::Dimmer(dev.forgotten()),
            },
    {
        match self {
            DeviceSet::Switch(dev) => {
                dev.reset_state();
            },
            DeviceSet::Dimmer(dev) => {
                dev.reset_state();
            },
        }
    }
}

/// The dimmer and the indicator do not affect each other.
pub proof fn dimmer_and_indicator_are_independent<S>(
    d: DimmerWithIndicator<S>,
    dimmer_event: Event<Flt, S>,
    indicator_event: Event<bool, S>,
    now: Instant,
)
    ensures
        ({
            let (a, out_a) = d.after_input(Input::Dimmer(dimmer_event), now);
            let (b, out_b) = d.after_input(Input::Indicator(indicator_event), now);
            &&& a.indicator == d.indicator
            &&& b.dimmer == d.dimmer
            &&& a.after_input(Input::Indicator(indicator_event), now) == (
                DimmerWithIndicator { dimmer: a.dimmer, indicator: b.indicator },
                out_b,
            )
            &&& b.after_input(Input::Dimmer(dimmer_event), now) == (
                DimmerWithIndicator { dimmer: a.dimmer, indicator: b.indicator },
                out_a,
            )
        }),
{
}

} // verus!
