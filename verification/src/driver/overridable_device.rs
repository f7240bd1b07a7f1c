//! A settable device that is "shared" with the outside world.
//!
//! Some devices are controlled by this framework alone, but many commercial
//! ones are meant to be controlled by other means, too: an LED bulb has its
//! own app. An `OverridableDevice` controls such a device cooperatively.
//!
//! A driver that uses one does these steps in its main loop:
//!
//! - it polls the hardware periodically and hands each reading to
//!   `report_update`;
//! - it asks `next_setting` for the next incoming setting;
//! - once it has set the hardware, it polls at once and hands the reading to
//!   `report_update`.
//!
//! Some hardware confirms a setting before the physical device has it, and
//! falls back to the real reading later on. To tolerate this, a device can be
//! given an "envelope": a settle period, started when a setting is applied,
//! during which readings are held against the setting without a verdict. A
//! reading that differs reasserts the setting and extends the envelope. When
//! the envelope elapses at last, the latest reading decides the outcome. Without
//! an envelope, a reading that matches the setting is trusted immediately.
//!
//! Nothing here waits. `report_update` and `next_setting` are the parts that
//! decide; the caller writes to the backend, receives settings and sleeps.

use crate::device::ReadWriteCompat;
use crate::time::{saturating_duration_since, Duration, Instant};
use vstd::prelude::*;

verus! {

/// A value to be applied, with the one to answer if a client asked for it.
pub type SettingTransaction<T, S> = (T, Option<S>);

/// The two independent timeouts of an `OverridableDevice`.
#[derive(Clone, Copy, Debug, PartialEq, Eq, Structural)]
pub struct OverrideConfig {
    /// How long the device stays overridden before its last setting is
    /// reasserted. `None` means that this never happens by itself.
    pub override_duration: Option<Duration>,
    /// How long to wait, after applying a setting, before a reading is trusted
    /// enough to call the setting applied or overridden. `None` is no wait.
    pub envelope: Option<Duration>,
}

impl Default for OverrideConfig {
    fn default() -> (r: Self)
        ensures
            r.override_duration is None,
            r.envelope is None,
    {
        OverrideConfig { override_duration: None, envelope: None }
    }
}

/// The states that a device goes through as it receives settings and readings.
#[derive(Debug)]
pub enum State<T, S> {
    /// Nothing is known of the hardware.
    Unknown,
    /// A setting has arrived while nothing was known, and the backend has yet
    /// to see it.
    UnknownTrans { value: T, report: Option<S> },
    /// The hardware has the value that was set.
    Synced { value: T },
    /// Like `Synced`, but the value has been set once more, and the backend has
    /// yet to see that.
    SyncedTrans { value: T },
    /// A setting is being applied. `last_seen` is the latest reading since it
    /// was issued; it starts out as the setting if there was none. `deadline`
    /// is when the latest reading decides. `needs_reaffirm` is set once a client
    /// sends the same value again: the backend is to see it again, the driver
    /// is not.
    Applying { setting: T, last_seen: T, deadline: Instant, needs_reaffirm: bool },
    /// Like `Applying`, but the setting has yet to be handed to the driver. It is
    /// either new, and the backend has yet to see it (`needs_report`), or it is
    /// reasserted after a reading that differed.
    ApplyingTrans {
        setting: T,
        last_seen: T,
        deadline: Instant,
        responder: Option<S>,
        needs_report: bool,
    },
    /// The hardware was set by someone else. `setting` is what to go back to.
    Overridden { setting: T, overridden: T, deadline: Instant },
}

impl<T, S> State<T, S> {
    /// The value that `get_last` gives.
    pub open spec fn last(self) -> Option<T> {
        match self {
            State::Unknown => None,
            State::UnknownTrans { value, .. } => Some(value),
            State::Synced { value } => Some(value),
            State::SyncedTrans { value } => Some(value),
            State::Applying { setting, .. } => Some(setting),
            State::ApplyingTrans { setting, .. } => Some(setting),
            State::Overridden { overridden, .. } => Some(overridden),
        }
    }

    /// The one that is still to be answered, if there is one.
    pub open spec fn owed(self) -> Option<S> {
        match self {
            State::UnknownTrans { report, .. } => report,
            State::ApplyingTrans { responder, .. } => responder,
            _ => None,
        }
    }

    /// The name of the state, for logs.
    pub fn label(&self) -> (r: &'static str)
        ensures
            r@ == match *self {
                State::Unknown => "<<Unknown>>"@,
                State::UnknownTrans { .. } => "<<UnknownTrans>>"@,
                State::Synced { .. } => "<<Synced>>"@,
                State::SyncedTrans { .. } => "<<SyncedTrans>>"@,
                State::Applying { .. } => "<<Applying>>"@,
                State::ApplyingTrans { .. } => "<<ApplyingTrans>>"@,
                State::Overridden { .. } => "<<Overridden>>"@,
            },
    {
        match self {
            State::Unknown => "<<Unknown>>",
            State::UnknownTrans { .. } => "<<UnknownTrans>>",
            State::Synced { .. } => "<<Synced>>",
            State::SyncedTrans { .. } => "<<SyncedTrans>>",
            State::Applying { .. } => "<<Applying>>",
            State::ApplyingTrans { .. } => "<<ApplyingTrans>>",
            State::Overridden { .. } => "<<Overridden>>",
        }
    }
}

/// What has happened since the last step of `next_setting`.
#[derive(Debug)]
pub enum Event<T, S> {
    /// Nothing: the caller starts, or starts anew after a cancelled wait.
    Poll,
    /// The value of the last `Action::Report` is in the backend.
    Reported,
    /// The value of the last `Action::ReportAt` is in the backend. The instant is
    /// the one that the action had.
    ReportedAt(Instant),
    /// A client has sent this setting.
    Setting(T, S),
    /// There are no more clients.
    Closed,
    /// The time of the last `Action::Wait` is over.
    Elapsed,
}

/// What the caller of `next_setting` is to do.
#[derive(Debug)]
pub enum Action<T, O> {
    /// Write the value to the backend; go on with `Event::Reported`.
    Report(T),
    /// Write the value to the backend; go on with `Event::ReportedAt`. The value
    /// counts from this instant on, however long the write takes.
    ReportAt(T, Instant),
    /// Wait for a setting, for no longer than the given time if there is one.
    Wait(Option<Duration>),
    /// Go on with `Event::Poll` and a fresh look at the clock.
    Again,
    /// This is the result.
    Ready(O),
    /// There will be no more settings.
    Finished,
}

/// A step of `next_setting`: the client to be answered with success and the
/// value, and what to do next.
#[derive(Debug)]
pub struct Step<T, S, O> {
    pub ack: Option<(S, T)>,
    pub action: Action<T, O>,
}

/// An action on the way to a setting.
pub type SettingAction<T, S> = Action<T, SettingTransaction<T, S>>;

/// A step on the way to a setting.
pub type SettingStep<T, S> = Step<T, S, SettingTransaction<T, S>>;

/// A device whose settings can be overridden from outside.
#[derive(Debug)]
pub struct OverridableDevice<T, S> {
    pub state: State<T, S>,
    pub override_duration: Option<Duration>,
    pub envelope: Duration,
}

/// The step that asks for `action` and answers nobody.
pub open spec fn silent<T, S, O>(action: Action<T, O>) -> Step<T, S, O> {
    Step { ack: None, action }
}

/// The length of an optional period.
pub open spec fn length(d: Option<Duration>) -> Duration {
    match d {
        Some(d) => d,
        None => 0,
    }
}

impl<T: ReadWriteCompat, S> OverridableDevice<T, S> {
    /// The device with another state.
    pub open spec fn with(self, state: State<T, S>) -> Self {
        OverridableDevice { state, ..self }
    }

    /// Whether the clock can show the end of an envelope that starts now.
    pub open spec fn envelope_fits(self, now: Instant) -> bool {
        now + self.envelope <= Instant::MAX
    }

    /// Whether the clock can show the end of an override that starts now.
    pub open spec fn override_fits(self, now: Instant) -> bool {
        now + length(self.override_duration) <= Instant::MAX
    }

    /// Whether the clock can show the ends of both periods that start now.
    pub open spec fn clock_fits(self, now: Instant) -> bool {
        self.envelope_fits(now) && self.override_fits(now)
    }

    /// Whether it is time for `event`: a wait is over no sooner than its deadline,
    /// and the clock can show the end of the period that `event` starts, if it
    /// starts one.
    pub open spec fn step_fits(self, event: Event<T, S>, now: Instant) -> bool {
        match self.state {
            State::UnknownTrans { .. } => event is Reported ==> self.envelope_fits(now),
            State::Synced { value } => event matches Event::Setting(v, _) ==> v.is_same(value)
                || self.envelope_fits(now),
            State::Applying { setting, deadline, needs_reaffirm, .. } => {
                &&& event matches Event::Setting(v, _) ==> v.is_same(setting)
                    || self.envelope_fits(now)
                &&& event is Elapsed ==> deadline <= now
                &&& event is Reported && !needs_reaffirm ==> deadline <= now
                    && self.override_fits(now)
                &&& event matches Event::ReportedAt(at) ==> at <= now && self.override_fits(at)
            },
            State::Overridden { setting, overridden, deadline } => {
                let expires = event is Poll && self.override_duration is Some && deadline <= now;
                &&& event is Elapsed ==> deadline <= now
                &&& (event is Elapsed || expires) && !setting.is_same(overridden)
                    ==> self.envelope_fits(now)
            },
            _ => true,
        }
    }

    /// The end of an envelope that starts now.
    pub open spec fn envelope_end(self, now: Instant) -> Instant {
        (now + self.envelope) as Instant
    }

    /// The end of an override that starts now.
    pub open spec fn override_end(self, now: Instant) -> Instant {
        (now + length(self.override_duration)) as Instant
    }

    /// Whether a reading goes to the backend: it does where it is news and no
    /// setting is being applied.
    pub open spec fn reports(self, new_value: T) -> bool {
        match self.state {
            State::Unknown => true,
            State::Synced { value } => !value.is_same(new_value),
            State::SyncedTrans { value } => !value.is_same(new_value),
            State::Overridden { overridden, .. } => !overridden.is_same(new_value),
            _ => false,
        }
    }

    /// The state after a reading.
    pub open spec fn after_reading(self, new_value: T, now: Instant) -> State<T, S> {
        match self.state {
            State::Unknown => State::Synced { value: new_value },
            State::UnknownTrans { .. } => self.state,
            State::Synced { value } | State::SyncedTrans { value } => if value.is_same(new_value) {
                self.state
            } else {
                State::Overridden {
                    setting: value,
                    overridden: new_value,
                    deadline: self.override_end(now),
                }
            },
            State::Applying { setting, deadline, needs_reaffirm, .. } => if setting.is_same(
                new_value,
            ) {
                if self.envelope > 0 {
                    State::Applying { setting, last_seen: new_value, deadline, needs_reaffirm }
                } else if needs_reaffirm {
                    State::SyncedTrans { value: setting }
                } else {
                    State::Synced { value: setting }
                }
            } else {
                State::ApplyingTrans {
                    setting,
                    last_seen: new_value,
                    deadline: self.envelope_end(now),
                    responder: None,
                    needs_report: false,
                }
            },
            State::ApplyingTrans { setting, deadline, responder, needs_report, .. } => if setting.is_same(
                new_value,
            ) {
                if self.envelope > 0 {
                    State::Applying { setting, last_seen: setting, deadline, needs_reaffirm: false }
                } else {
                    State::Synced { value: setting }
                }
            } else {
                State::ApplyingTrans {
                    setting,
                    last_seen: new_value,
                    deadline: self.envelope_end(now),
                    responder,
                    needs_report,
                }
            },
            State::Overridden { setting, overridden, .. } => if setting.is_same(new_value) {
                State::Synced { value: setting }
            } else if overridden.is_same(new_value) {
                self.state
            } else {
                State::Overridden {
                    setting,
                    overridden: new_value,
                    deadline: self.override_end(now),
                }
            },
        }
    }

    /// The client that a reading answers: the one whose setting the hardware
    /// turns out to have before the driver was asked.
    pub open spec fn answered_by_reading(self, new_value: T) -> Option<(S, T)> {
        match self.state {
            State::ApplyingTrans { setting, responder: Some(s), .. } => if setting.is_same(
                new_value,
            ) {
                Some((s, new_value))
            } else {
                None
            },
            _ => None,
        }
    }

    /// Whether `event` can happen to the caller in this state.
    pub open spec fn accepts(self, event: Event<T, S>) -> bool {
        match event {
            Event::Poll => true,
            Event::Reported => match self.state {
                State::UnknownTrans { .. } | State::SyncedTrans { .. } => true,
                State::Applying { setting, last_seen, needs_reaffirm, .. } => needs_reaffirm
                    || !last_seen.is_same(setting),
                State::ApplyingTrans { needs_report, .. } => needs_report,
                _ => false,
            },
            Event::ReportedAt(at) => match self.state {
                State::Applying { setting, last_seen, deadline, needs_reaffirm } => {
                    &&& !needs_reaffirm
                    &&& !last_seen.is_same(setting)
                    &&& deadline <= at
                },
                _ => false,
            },
            Event::Setting(..) | Event::Closed => match self.state {
                State::Unknown | State::Synced { .. } | State::Overridden { .. } => true,
                State::Applying { needs_reaffirm, .. } => !needs_reaffirm,
                _ => false,
            },
            Event::Elapsed => match self.state {
                State::Applying { needs_reaffirm, .. } => !needs_reaffirm,
                State::Overridden { .. } => self.override_duration is Some,
                _ => false,
            },
        }
    }

    /// The state in which a new setting waits to be handed to the driver.
    pub open spec fn applying_new(
        self,
        setting: T,
        last_seen: T,
        responder: Option<S>,
        now: Instant,
    ) -> State<T, S> {
        State::ApplyingTrans {
            setting,
            last_seen,
            deadline: self.envelope_end(now),
            responder,
            needs_report: true,
        }
    }

    /// The state after an override that has run out.
    pub open spec fn after_override(self, setting: T, overridden: T, now: Instant) -> State<T, S> {
        if setting.is_same(overridden) {
            State::Synced { value: overridden }
        } else {
            self.applying_new(setting, overridden, None, now)
        }
    }

    /// The step at the start of a round.
    pub open spec fn on_poll(self, now: Instant) -> (State<T, S>, SettingStep<T, S>) {
        match self.state {
            State::Unknown | State::Synced { .. } => (self.state, silent(Action::Wait(None))),
            State::UnknownTrans { value, .. } | State::SyncedTrans { value } => (
                self.state,
                silent(Action::Report(value)),
            ),
            State::Applying { setting, last_seen, deadline, needs_reaffirm } => if needs_reaffirm {
                (self.state, silent(Action::Report(setting)))
            } else if deadline > now {
                (self.state, silent(Action::Wait(Some((deadline - now) as Duration))))
            } else if last_seen.is_same(setting) {
                (State::Synced { value: setting }, silent(Action::Again))
            } else {
                (self.state, silent(Action::ReportAt(last_seen, now)))
            },
            State::ApplyingTrans { setting, last_seen, deadline, responder, needs_report } => if needs_report {
                (self.state, silent(Action::Report(setting)))
            } else {
                (
                    State::Applying { setting, last_seen, deadline, needs_reaffirm: false },
                    silent(Action::Ready((setting, responder))),
                )
            },
            State::Overridden { setting, overridden, deadline } => if self.override_duration is None {
                (self.state, silent(Action::Wait(None)))
            } else if deadline > now {
                (self.state, silent(Action::Wait(Some((deadline - now) as Duration))))
            } else {
                (self.after_override(setting, overridden, now), silent(Action::Again))
            },
        }
    }

    /// The step once the backend has the value that it was to get.
    pub open spec fn on_reported(self, now: Instant) -> (State<T, S>, SettingStep<T, S>) {
        match self.state {
            State::UnknownTrans { value, report } => (
                State::Applying {
                    setting: value,
                    last_seen: value,
                    deadline: self.envelope_end(now),
                    needs_reaffirm: false,
                },
                silent(Action::Ready((value, report))),
            ),
            State::SyncedTrans { value } => (State::Synced { value }, silent(Action::Again)),
            State::Applying { setting, last_seen, deadline, needs_reaffirm } => if needs_reaffirm {
                (
                    State::Applying { setting, last_seen, deadline, needs_reaffirm: false },
                    silent(Action::Again),
                )
            } else {
                (
                    State::Overridden {
                        setting,
                        overridden: last_seen,
                        deadline: self.override_end(now),
                    },
                    silent(Action::Again),
                )
            },
            State::ApplyingTrans { setting, last_seen, deadline, responder, .. } => (
                State::Applying { setting, last_seen, deadline, needs_reaffirm: false },
                silent(Action::Ready((setting, responder))),
            ),
            _ => (self.state, silent(Action::Again)),
        }
    }

    /// The step once the backend has the value that it was to get, which counts
    /// from `at` on.
    pub open spec fn on_reported_at(self, at: Instant) -> (State<T, S>, SettingStep<T, S>) {
        match self.state {
            State::Applying { setting, last_seen, .. } => (
                State::Overridden { setting, overridden: last_seen, deadline: self.override_end(at) },
                silent(Action::Again),
            ),
            _ => (self.state, silent(Action::Again)),
        }
    }

    /// The step when a client has sent a setting.
    pub open spec fn on_setting(self, value: T, responder: S, now: Instant) -> (State<T, S>, SettingStep<T, S>) {
        let answered = Step { ack: Some((responder, value)), action: Action::Again };
        match self.state {
            State::Unknown => (
                State::UnknownTrans { value, report: Some(responder) },
                silent(Action::Again),
            ),
            State::Synced { value: current } => if value.is_same(current) {
                (State::SyncedTrans { value }, answered)
            } else {
                (
                    self.applying_new(value, current, Some(responder), now),
                    silent(Action::Again),
                )
            },
            State::Applying { setting, last_seen, deadline, .. } => if value.is_same(setting) {
                (
                    State::Applying { setting, last_seen, deadline, needs_reaffirm: true },
                    answered,
                )
            } else {
                (
                    self.applying_new(value, last_seen, Some(responder), now),
                    silent(Action::Again),
                )
            },
            State::Overridden { overridden, deadline, .. } => (
                State::Overridden { setting: value, overridden, deadline },
                answered,
            ),
            _ => (self.state, silent(Action::Again)),
        }
    }

    /// The step when the time to wait is over.
    pub open spec fn on_elapsed(self, now: Instant) -> (State<T, S>, SettingStep<T, S>) {
        match self.state {
            State::Applying { setting, last_seen, .. } => if last_seen.is_same(setting) {
                (State::Synced { value: setting }, silent(Action::Again))
            } else {
                (self.state, silent(Action::Report(last_seen)))
            },
            State::Overridden { setting, overridden, .. } => (
                self.after_override(setting, overridden, now),
                silent(Action::Again),
            ),
            _ => (self.state, silent(Action::Again)),
        }
    }

    /// The step that follows an event.
    pub open spec fn on_event(self, event: Event<T, S>, now: Instant) -> (State<T, S>, SettingStep<T, S>) {
        match event {
            Event::Poll => self.on_poll(now),
            Event::Reported => self.on_reported(now),
            Event::ReportedAt(at) => self.on_reported_at(at),
            Event::Setting(value, responder) => self.on_setting(value, responder, now),
            Event::Closed => (self.state, silent(Action::Finished)),
            Event::Elapsed => self.on_elapsed(now),
        }
    }

    /// What `new` gives.
    pub open spec fn fresh(
        desired_value: Option<T>,
        override_duration: Option<Duration>,
        envelope: Option<Duration>,
        now: Instant,
    ) -> Self {
        OverridableDevice {
            state: match desired_value {
                Some(value) => State::ApplyingTrans {
                    setting: value,
                    last_seen: value,
                    deadline: (now + length(envelope)) as Instant,
                    responder: None,
                    needs_report: true,
                },
                None => State::Unknown,
            },
            override_duration,
            envelope: length(envelope),
        }
    }

    /// A device that starts out by applying `desired_value`, if there is one.
    pub fn new(
        desired_value: Option<T>,
        override_duration: Option<Duration>,
        envelope: Option<Duration>,
        now: Instant,
    ) -> (r: Self)
        requires
            desired_value is Some ==> now + length(envelope) <= Instant::MAX,
        ensures
            r == Self::fresh(desired_value, override_duration, envelope, now),
            r.override_duration == override_duration,
            r.envelope == length(envelope),
            r.state == match desired_value {
                Some(value) => r.applying_new(value, value, None, now),
                None => State::Unknown,
            },
    {
        let envelope: Duration = match envelope {
            Some(d) => d,
            None => 0,
        };
        let state = match desired_value {
            Some(value) => State::ApplyingTrans {
                setting: value.duplicate(),
                last_seen: value,
                deadline: now + envelope,
                responder: None,
                needs_report: true,
            },
            None => State::Unknown,
        };
        OverridableDevice { state, override_duration, envelope }
    }

    fn override_deadline(&self, now: Instant) -> (r: Instant)
        requires
            self.override_fits(now),
        ensures
            r == self.override_end(now),
    {
        match self.override_duration {
            Some(d) => now + d,
            None => now,
        }
    }

    /// The value to be written to the backend before the reading is handed to
    /// `report_update`. Only values that have changed are written. The call
    /// changes nothing, so that an attempt to write can be given up and made
    /// again.
    pub fn report_due(&self, new_value: &T) -> (r: Option<T>)
        ensures
            r == if self.reports(*new_value) {
                Some(*new_value)
            } else {
                None
            },
    {
        let news = match &self.state {
            State::Unknown => true,
            State::Synced { value } => !value.same(new_value),
            State::SyncedTrans { value } => !value.same(new_value),
            State::Overridden { overridden, .. } => !overridden.same(new_value),
            _ => false,
        };
        if news {
            Some(new_value.duplicate())
        } else {
            None
        }
    }

    /// Takes note of a reading, once the value that `report_due` gives for it
    /// has been written. Returns the client to be answered with success and the
    /// value, if there is one.
    pub fn report_update(&mut self, new_value: T, now: Instant) -> (ack: Option<(S, T)>)
        requires
            old(self).clock_fits(now),
        ensures
            *final(self) == old(self).with(old(self).after_reading(new_value, now)),
            ack == old(self).answered_by_reading(new_value),
    {
        let override_deadline: Instant = self.override_deadline(now);
        let envelope_deadline: Instant = now + self.envelope;
        let mut state: State<T, S> = State::Unknown;
        core::mem::swap(&mut state, &mut self.state);
        let mut ack: Option<(S, T)> = None;
        self.state = match state {
            // A setting that comes in can further modify the state.
            State::Unknown => State::Synced { value: new_value },
            // The setting is to be completed: the reading is stale.
            State::UnknownTrans { value, report } => State::UnknownTrans { value, report },
            State::Synced { value } => if value.same(&new_value) {
                State::Synced { value }
            } else {
                State::Overridden {
                    setting: value,
                    overridden: new_value,
                    deadline: override_deadline,
                }
            },
            State::SyncedTrans { value } => if value.same(&new_value) {
                State::SyncedTrans { value }
            } else {
                State::Overridden {
                    setting: value,
                    overridden: new_value,
                    deadline: override_deadline,
                }
            },
            // A match is remembered, but the verdict is left to the end of the
            // envelope. Without one, the match is trusted at once; a write that
            // is still owed stays so. A mismatch always reasserts the setting.
            State::Applying { setting, deadline, needs_reaffirm, .. } => if setting.same(
                &new_value,
            ) {
                if self.envelope > 0 {
                    State::Applying { setting, last_seen: new_value, deadline, needs_reaffirm }
                } else if needs_reaffirm {
                    State::SyncedTrans { value: setting }
                } else {
                    State::Synced { value: setting }
                }
            } else {
                State::ApplyingTrans {
                    setting,
                    last_seen: new_value,
                    deadline: envelope_deadline,
                    responder: None,
                    needs_report: false,
                }
            },
            // After a match there is no need to bother the driver. A mismatch
            // extends the envelope; what is to be handed over stays.
            State::ApplyingTrans { setting, deadline, responder, needs_report, .. } => if setting.same(
                &new_value,
            ) {
                if let Some(s) = responder {
                    ack = Some((s, new_value));
                }
                if self.envelope > 0 {
                    State::Applying {
                        last_seen: setting.duplicate(),
                        setting,
                        deadline,
                        needs_reaffirm: false,
                    }
                } else {
                    State::Synced { value: setting }
                }
            } else {
                State::ApplyingTrans {
                    setting,
                    last_seen: new_value,
                    deadline: envelope_deadline,
                    responder,
                    needs_report,
                }
            },
            // The device is back in sync if it has the setting again. A reading
            // that is neither the setting nor the override so far starts the
            // timer anew; the setting to go back to stays.
            State::Overridden { setting, overridden, deadline } => if setting.same(&new_value) {
                State::Synced { value: setting }
            } else if overridden.same(&new_value) {
                State::Overridden { setting, overridden, deadline }
            } else {
                State::Overridden {
                    setting,
                    overridden: new_value,
                    deadline: override_deadline,
                }
            },
        };
        ack
    }

    /// The last value of the device.
    pub fn get_last(&self) -> (r: Option<&T>)
        ensures
            r == match self.state.last() {
                Some(value) => Some(&value),
                None => None,
            },
    {
        match &self.state {
            State::Unknown => None,
            State::UnknownTrans { value, .. } => Some(value),
            State::Synced { value } => Some(value),
            State::SyncedTrans { value } => Some(value),
            State::Applying { setting, .. } => Some(setting),
            State::ApplyingTrans { setting, .. } => Some(setting),
            State::Overridden { overridden, .. } => Some(overridden),
        }
    }

    /// Forgets all that is known of the hardware.
    pub fn reset_state(&mut self)
        ensures
            *final(self) == old(self).with(State::Unknown),
    {
        self.state = State::Unknown;
    }

    /// Takes one step towards the next setting for the driver.
    ///
    /// The caller starts with `Event::Poll`, carries out the action of each
    /// step and comes back with what happened, until an action ends it. It may
    /// give up at any action and start anew with `Event::Poll`: what is not
    /// done yet is asked for again. The clock is read before each step.
    pub fn next_setting(&mut self, event: Event<T, S>, now: Instant) -> (step: SettingStep<T, S>)
        requires
            old(self).accepts(event),
            old(self).step_fits(event, now),
        ensures
            (final(self).state, step) == old(self).on_event(event, now),
            *final(self) == old(self).with(final(self).state),
    {
        match event {
            Event::Poll => self.poll(now),
            Event::Reported => self.reported(now),
            Event::ReportedAt(at) => self.reported_at(at),
            Event::Setting(value, responder) => self.setting_arrived(value, responder, now),
            Event::Closed => Step { ack: None, action: Action::Finished },
            Event::Elapsed => self.elapsed(now),
        }
    }

    fn leave_override(&self, setting: T, overridden: T, now: Instant) -> (r: State<T, S>)
        requires
            !setting.is_same(overridden) ==> self.envelope_fits(now),
        ensures
            r == self.after_override(setting, overridden, now),
    {
        if setting.same(&overridden) {
            State::Synced { value: overridden }
        } else {
            State::ApplyingTrans {
                setting,
                last_seen: overridden,
                deadline: now + self.envelope,
                responder: None,
                needs_report: true,
            }
        }
    }

    fn poll(&mut self, now: Instant) -> (step: SettingStep<T, S>)
        requires
            old(self).step_fits(Event::Poll, now),
        ensures
            (final(self).state, step) == old(self).on_poll(now),
            *final(self) == old(self).with(final(self).state),
    {
        let mut state: State<T, S> = State::Unknown;
        core::mem::swap(&mut state, &mut self.state);
        let action: SettingAction<T, S>;
        self.state = match state {
            State::Unknown => {
                action = Action::Wait(None);
                State::Unknown
            },
            State::Synced { value } => {
                action = Action::Wait(None);
                State::Synced { value }
            },
            State::UnknownTrans { value, report } => {
                action = Action::Report(value.duplicate());
                State::UnknownTrans { value, report }
            },
            State::SyncedTrans { value } => {
                action = Action::Report(value.duplicate());
                State::SyncedTrans { value }
            },
            State::Applying { setting, last_seen, deadline, needs_reaffirm } => if needs_reaffirm {
                action = Action::Report(setting.duplicate());
                State::Applying { setting, last_seen, deadline, needs_reaffirm }
            } else if deadline > now {
                action = Action::Wait(Some(saturating_duration_since(deadline, now)));
                State::Applying { setting, last_seen, deadline, needs_reaffirm }
            } else if last_seen.same(&setting) {
                action = Action::Again;
                State::Synced { value: setting }
            } else {
                // The backend has not seen this reading during the envelope.
                action = Action::ReportAt(last_seen.duplicate(), now);
                State::Applying { setting, last_seen, deadline, needs_reaffirm }
            },
            State::ApplyingTrans { setting, last_seen, deadline, responder, needs_report } => if needs_report {
                action = Action::Report(setting.duplicate());
                State::ApplyingTrans { setting, last_seen, deadline, responder, needs_report }
            } else {
                action = Action::Ready((setting.duplicate(), responder));
                State::Applying { setting, last_seen, deadline, needs_reaffirm: false }
            },
            State::Overridden { setting, overridden, deadline } => if self.override_duration.is_none() {
                action = Action::Wait(None);
                State::Overridden { setting, overridden, deadline }
            } else if deadline > now {
                action = Action::Wait(Some(saturating_duration_since(deadline, now)));
                State::Overridden { setting, overridden, deadline }
            } else {
                action = Action::Again;
                self.leave_override(setting, overridden, now)
            },
        };
        Step { ack: None, action }
    }

    fn reported(&mut self, now: Instant) -> (step: SettingStep<T, S>)
        requires
            old(self).step_fits(Event::Reported, now),
        ensures
            (final(self).state, step) == old(self).on_reported(now),
            *final(self) == old(self).with(final(self).state),
    {
        let mut state: State<T, S> = State::Unknown;
        core::mem::swap(&mut state, &mut self.state);
        let mut action: SettingAction<T, S> = Action::Again;
        self.state = match state {
            State::UnknownTrans { value, report } => {
                action = Action::Ready((value.duplicate(), report));
                State::Applying {
                    setting: value.duplicate(),
                    last_seen: value,
                    deadline: now + self.envelope,
                    needs_reaffirm: false,
                }
            },
            State::SyncedTrans { value } => State::Synced { value },
            State::Applying { setting, last_seen, deadline, needs_reaffirm } => if needs_reaffirm {
                State::Applying { setting, last_seen, deadline, needs_reaffirm: false }
            } else {
                State::Overridden { setting, overridden: last_seen, deadline: self.override_deadline(now) }
            },
            State::ApplyingTrans { setting, last_seen, deadline, responder, .. } => {
                action = Action::Ready((setting.duplicate(), responder));
                State::Applying { setting, last_seen, deadline, needs_reaffirm: false }
            },
            other => other,
        };
        Step { ack: None, action }
    }

    fn reported_at(&mut self, at: Instant) -> (step: SettingStep<T, S>)
        requires
            old(self).override_fits(at),
        ensures
            (final(self).state, step) == old(self).on_reported_at(at),
            *final(self) == old(self).with(final(self).state),
    {
        let mut state: State<T, S> = State::Unknown;
        core::mem::swap(&mut state, &mut self.state);
        self.state = match state {
            State::Applying { setting, last_seen, .. } => State::Overridden {
                setting,
                overridden: last_seen,
                deadline: self.override_deadline(at),
            },
            other => other,
        };
        Step { ack: None, action: Action::Again }
    }

    fn setting_arrived(&mut self, value: T, responder: S, now: Instant) -> (step: SettingStep<T, S>)
        requires
            old(self).step_fits(Event::Setting(value, responder), now),
        ensures
            (final(self).state, step) == old(self).on_setting(value, responder, now),
            *final(self) == old(self).with(final(self).state),
    {
        let mut state: State<T, S> = State::Unknown;
        core::mem::swap(&mut state, &mut self.state);
        let mut ack: Option<(S, T)> = None;
        self.state = match state {
            State::Unknown => State::UnknownTrans { value, report: Some(responder) },
            State::Synced { value: current } => if value.same(&current) {
                ack = Some((responder, value.duplicate()));
                State::SyncedTrans { value }
            } else {
                State::ApplyingTrans {
                    setting: value,
                    last_seen: current,
                    deadline: now + self.envelope,
                    responder: Some(responder),
                    needs_report: true,
                }
            },
            State::Applying { setting, last_seen, deadline, .. } => if value.same(&setting) {
                ack = Some((responder, value));
                State::Applying { setting, last_seen, deadline, needs_reaffirm: true }
            } else {
                State::ApplyingTrans {
                    setting: value,
                    last_seen,
                    deadline: now + self.envelope,
                    responder: Some(responder),
                    needs_report: true,
                }
            },
            // The hardware is not to be touched: the setting is kept for later.
            State::Overridden { overridden, deadline, .. } => {
                ack = Some((responder, value.duplicate()));
                State::Overridden { setting: value, overridden, deadline }
            },
            other => other,
        };
        Step { ack, action: Action::Again }
    }

    fn elapsed(&mut self, now: Instant) -> (step: SettingStep<T, S>)
        requires
            old(self).step_fits(Event::Elapsed, now),
        ensures
            (final(self).state, step) == old(self).on_elapsed(now),
            *final(self) == old(self).with(final(self).state),
    {
        let mut state: State<T, S> = State::Unknown;
        core::mem::swap(&mut state, &mut self.state);
        let mut action: SettingAction<T, S> = Action::Again;
        self.state = match state {
            State::Applying { setting, last_seen, deadline, needs_reaffirm } => if last_seen.same(
                &setting,
            ) {
                State::Synced { value: setting }
            } else {
                action = Action::Report(last_seen.duplicate());
                State::Applying { setting, last_seen, deadline, needs_reaffirm }
            },
            State::Overridden { setting, overridden, .. } => self.leave_override(
                setting,
                overridden,
                now,
            ),
            other => other,
        };
        Step { ack: None, action }
    }
}

} // verus!
