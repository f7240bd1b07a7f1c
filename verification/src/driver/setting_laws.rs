//! What a single step of `next_setting` does to an `OverridableDevice`, event by
//! event and state by state.

use crate::device::ReadWriteCompat;
use crate::driver::overridable_device::{
    Action, Event, OverridableDevice, SettingAction, State,
};
use crate::driver::reading_laws::later_by;
use crate::time::{Duration, Instant};
use vstd::prelude::*;

verus! {

/// Whether the device has yet to hand `setting` to the driver, and the backend has
/// yet to see it. The client, if there is one, has not been answered, and an
/// envelope has started at `start`.
pub open spec fn is_to_be_applied<T: ReadWriteCompat, S>(
    d: OverridableDevice<T, S>,
    state: State<T, S>,
    setting: T,
    seen: T,
    responder: Option<S>,
    start: Instant,
) -> bool {
    &&& state is ApplyingTrans
    &&& state->ApplyingTrans_setting == setting
    &&& state->ApplyingTrans_last_seen == seen
    &&& state->ApplyingTrans_responder == responder
    &&& state->ApplyingTrans_needs_report
    &&& state->ApplyingTrans_deadline == start + d.envelope
}

/// A device that is made with a value is to apply it, and one that is made without
/// knows nothing. Its timeouts are those that it was given, where no envelope is
/// one of no length.
pub proof fn device_starts_with_its_value<T: ReadWriteCompat, S>(
    value: T,
    override_duration: Option<Duration>,
    envelope: Option<Duration>,
    now: Instant,
)
    requires
        later_by(now, envelope) <= Instant::MAX,
    ensures
        ({
            let with = OverridableDevice::<T, S>::fresh(
                Some(value),
                override_duration,
                envelope,
                now,
            );
            let without = OverridableDevice::<T, S>::fresh(None, override_duration, envelope, now);
            &&& is_to_be_applied(with, with.state, value, value, None, now)
            &&& without.state is Unknown
            &&& with.override_duration == override_duration
            &&& without.override_duration == override_duration
            &&& with.envelope == later_by(0, envelope)
            &&& without.envelope == later_by(0, envelope)
        }),
{
}

/// Each event is dealt with by its own rule. The end of the settings changes
/// nothing and answers nobody.
pub proof fn events_have_their_rules<T: ReadWriteCompat, S>(
    d: OverridableDevice<T, S>,
    value: T,
    responder: S,
    at: Instant,
    now: Instant,
)
    ensures
        d.on_event(Event::Poll, now) == d.on_poll(now),
        d.on_event(Event::Reported, now) == d.on_reported(now),
        d.on_event(Event::ReportedAt(at), now) == d.on_reported_at(at),
        d.on_event(Event::Setting(value, responder), now) == d.on_setting(value, responder, now),
        d.on_event(Event::Elapsed, now) == d.on_elapsed(now),
        d.on_event(Event::Closed, now).0 == d.state,
        d.on_event(Event::Closed, now).1.ack is None,
        d.on_event(Event::Closed, now).1.action is Finished,
{
}

/// Nobody is answered but the client that has just sent a setting.
pub proof fn only_settings_are_answered<T: ReadWriteCompat, S>(
    d: OverridableDevice<T, S>,
    event: Event<T, S>,
    now: Instant,
)
    ensures
        d.on_event(event, now).1.ack matches Some((s, v)) ==> event == Event::Setting(v, s),
{
}

/// A setting for a device of which nothing is known is kept with its client, to be
/// written first.
pub proof fn setting_for_an_unknown_device<T: ReadWriteCompat, S>(
    d: OverridableDevice<T, S>,
    value: T,
    responder: S,
    now: Instant,
)
    requires
        d.state is Unknown,
    ensures
        d.accepts(Event::Setting(value, responder)),
        ({
            let (state, step) = d.on_setting(value, responder, now);
            &&& state == (State::<T, S>::UnknownTrans { value, report: Some(responder) })
            &&& step.ack is None
            &&& step.action is Again
        }),
{
}

/// A setting that a device in sync has already is answered at once, and written
/// once more.
pub proof fn setting_that_is_in_sync<T: ReadWriteCompat, S>(
    d: OverridableDevice<T, S>,
    current: T,
    value: T,
    responder: S,
    now: Instant,
)
    requires
        d.state == (State::<T, S>::Synced { value: current }),
        value.is_same(current),
    ensures
        d.accepts(Event::Setting(value, responder)),
        ({
            let (state, step) = d.on_setting(value, responder, now);
            &&& state == (State::<T, S>::SyncedTrans { value })
            &&& step.ack == Some((responder, value))
            &&& step.action is Again
        }),
{
}

/// A setting that a device in sync does not have is to be applied, against the
/// value that it has. The client has to wait, and an envelope starts now.
pub proof fn setting_that_is_new<T: ReadWriteCompat, S>(
    d: OverridableDevice<T, S>,
    current: T,
    value: T,
    responder: S,
    now: Instant,
)
    requires
        now + d.envelope <= Instant::MAX,
        d.state == (State::<T, S>::Synced { value: current }),
        !value.is_same(current),
    ensures
        d.accepts(Event::Setting(value, responder)),
        ({
            let (state, step) = d.on_setting(value, responder, now);
            &&& is_to_be_applied(d, state, value, current, Some(responder), now)
            &&& step.ack is None
            &&& step.action is Again
        }),
{
}

/// A setting that is being applied already is answered at once, and has the backend
/// told again. The envelope goes on.
pub proof fn setting_that_is_being_applied<T: ReadWriteCompat, S>(
    d: OverridableDevice<T, S>,
    setting: T,
    seen: T,
    deadline: Instant,
    value: T,
    responder: S,
    now: Instant,
)
    requires
        d.state == (State::<T, S>::Applying {
            setting,
            last_seen: seen,
            deadline,
            needs_reaffirm: false,
        }),
        value.is_same(setting),
    ensures
        d.accepts(Event::Setting(value, responder)),
        ({
            let (state, step) = d.on_setting(value, responder, now);
            &&& state == (State::<T, S>::Applying {
                setting,
                last_seen: seen,
                deadline,
                needs_reaffirm: true,
            })
            &&& step.ack == Some((responder, value))
            &&& step.action is Again
        }),
{
}

/// A setting that replaces the one being applied is to be applied in its place,
/// with an envelope of its own that starts now. The latest reading stays.
pub proof fn setting_that_replaces_another<T: ReadWriteCompat, S>(
    d: OverridableDevice<T, S>,
    setting: T,
    seen: T,
    deadline: Instant,
    value: T,
    responder: S,
    now: Instant,
)
    requires
        now + d.envelope <= Instant::MAX,
        d.state == (State::<T, S>::Applying {
            setting,
            last_seen: seen,
            deadline,
            needs_reaffirm: false,
        }),
        !value.is_same(setting),
    ensures
        d.accepts(Event::Setting(value, responder)),
        ({
            let (state, step) = d.on_setting(value, responder, now);
            &&& is_to_be_applied(d, state, value, seen, Some(responder), now)
            &&& step.ack is None
            &&& step.action is Again
        }),
{
}

/// A setting for an overridden device is what to go back to from now on. Its client
/// is answered at once.
pub proof fn setting_for_an_overridden_device<T: ReadWriteCompat, S>(
    d: OverridableDevice<T, S>,
    target: T,
    current: T,
    end: Instant,
    value: T,
    responder: S,
    now: Instant,
)
    requires
        d.state == (State::<T, S>::Overridden {
            setting: target,
            overridden: current,
            deadline: end,
        }),
    ensures
        d.accepts(Event::Setting(value, responder)),
        ({
            let (state, step) = d.on_setting(value, responder, now);
            &&& state == (State::<T, S>::Overridden {
                setting: value,
                overridden: current,
                deadline: end,
            })
            &&& step.ack == Some((responder, value))
            &&& step.action is Again
        }),
{
}

/// A new setting, from its arrival at `now` on: the backend gets it, the driver gets
/// it with its client, and from then on every poll before the end of the envelope
/// waits, for exactly the time that is left. The envelope starts when the setting
/// arrives at a device that is in sync or busy with another one.
pub proof fn new_setting_gets_its_envelope<T: ReadWriteCompat, S>(
    d: OverridableDevice<T, S>,
    value: T,
    responder: S,
    now: Instant,
    handed: Instant,
    at: Instant,
)
    requires
        now + d.envelope <= Instant::MAX,
        match d.state {
            State::Synced { value: v } => !value.is_same(v),
            State::Applying { setting: v, needs_reaffirm: false, .. } => !value.is_same(v),
            _ => false,
        },
        at < now + d.envelope,
    ensures
        ({
            let arrived = d.with(d.on_setting(value, responder, now).0);
            let (state, step) = arrived.on_reported(handed);
            let applying = d.with(state);
            &&& arrived.on_poll(handed).1.action == SettingAction::<T, S>::Report(value)
            &&& step.action == SettingAction::<T, S>::Ready((value, Some(responder)))
            &&& applying.on_poll(at).0 == state
            &&& applying.on_poll(at).1.action matches Action::Wait(Some(left)) && left == now
                + d.envelope - at
        }),
{
}

/// The same of the first setting of a device of which nothing is known. Here the
/// envelope starts when the setting is handed over.
pub proof fn first_setting_gets_its_envelope<T: ReadWriteCompat, S>(
    d: OverridableDevice<T, S>,
    value: T,
    responder: S,
    now: Instant,
    handed: Instant,
    at: Instant,
)
    requires
        handed + d.envelope <= Instant::MAX,
        d.state is Unknown,
        at < handed + d.envelope,
    ensures
        ({
            let arrived = d.with(d.on_setting(value, responder, now).0);
            let (state, step) = arrived.on_reported(handed);
            let applying = d.with(state);
            &&& arrived.on_poll(handed).1.action == SettingAction::<T, S>::Report(value)
            &&& step.action == SettingAction::<T, S>::Ready((value, Some(responder)))
            &&& applying.on_poll(at).0 == state
            &&& applying.on_poll(at).1.action matches Action::Wait(Some(left)) && left == handed
                + d.envelope - at
        }),
{
}

/// A device that has nothing to do waits for a setting, without a limit.
pub proof fn idle_device_waits<T: ReadWriteCompat, S>(d: OverridableDevice<T, S>, now: Instant)
    requires
        d.state is Unknown || d.state is Synced || d.state is Overridden && d.override_duration
            is None,
    ensures
        d.on_poll(now).0 == d.state,
        d.on_poll(now).1.ack is None,
        d.on_poll(now).1.action == SettingAction::<T, S>::Wait(None),
{
}

/// A value that the backend has yet to see is asked to be written, and nothing
/// changes until that is done.
pub proof fn owed_write_comes_first<T: ReadWriteCompat, S>(
    d: OverridableDevice<T, S>,
    value: T,
    now: Instant,
)
    requires
        match d.state {
            State::UnknownTrans { value: v, .. } => v == value,
            State::SyncedTrans { value: v } => v == value,
            State::Applying { setting: v, needs_reaffirm: true, .. } => v == value,
            State::ApplyingTrans { setting: v, needs_report: true, .. } => v == value,
            _ => false,
        },
    ensures
        d.accepts(Event::Reported),
        d.on_poll(now).0 == d.state,
        d.on_poll(now).1.ack is None,
        d.on_poll(now).1.action == SettingAction::<T, S>::Report(value),
{
}

/// While an envelope or an override goes on, a poll waits for exactly the rest of
/// it, and changes nothing.
pub proof fn poll_waits_for_the_rest<T: ReadWriteCompat, S>(
    d: OverridableDevice<T, S>,
    end: Instant,
    now: Instant,
)
    requires
        match d.state {
            State::Applying { deadline, needs_reaffirm: false, .. } => deadline == end,
            State::Overridden { deadline, .. } => deadline == end && d.override_duration is Some,
            _ => false,
        },
        now < end,
    ensures
        d.on_poll(now).0 == d.state,
        d.on_poll(now).1.ack is None,
        d.on_poll(now).1.action matches Action::Wait(Some(left)) && left == end - now,
{
}

/// The end of an envelope finds the device in sync if the latest reading equals the
/// setting. This is so for a poll and for a wait that is over.
pub proof fn envelope_ends_in_sync<T: ReadWriteCompat, S>(
    d: OverridableDevice<T, S>,
    setting: T,
    seen: T,
    deadline: Instant,
    now: Instant,
)
    requires
        d.state == (State::<T, S>::Applying {
            setting,
            last_seen: seen,
            deadline,
            needs_reaffirm: false,
        }),
        deadline <= now,
        seen.is_same(setting),
    ensures
        d.on_poll(now).0 == (State::<T, S>::Synced { value: setting }),
        d.on_poll(now).1.ack is None,
        d.on_poll(now).1.action is Again,
        d.on_elapsed(now) == d.on_poll(now),
{
}

/// The end of an envelope finds the device overridden if the latest reading differs
/// from the setting. The reading is written first. The override lasts for the
/// override duration: from the poll that found the envelope over, or from the end
/// of the write after a wait.
pub proof fn envelope_ends_in_an_override<T: ReadWriteCompat, S>(
    d: OverridableDevice<T, S>,
    setting: T,
    seen: T,
    deadline: Instant,
    now: Instant,
    done: Instant,
)
    requires
        d.state == (State::<T, S>::Applying {
            setting,
            last_seen: seen,
            deadline,
            needs_reaffirm: false,
        }),
        deadline <= now <= done,
        !seen.is_same(setting),
        later_by(done, d.override_duration) <= Instant::MAX,
    ensures
        d.on_poll(now).0 == d.state,
        d.on_poll(now).1.ack is None,
        d.on_poll(now).1.action == SettingAction::<T, S>::ReportAt(seen, now),
        d.on_elapsed(now).0 == d.state,
        d.on_elapsed(now).1.ack is None,
        d.on_elapsed(now).1.action == SettingAction::<T, S>::Report(seen),
        ({
            let (state, step) = d.on_reported_at(now);
            &&& state is Overridden
            &&& state->Overridden_setting == setting
            &&& state->Overridden_overridden == seen
            &&& state->Overridden_deadline == later_by(now, d.override_duration)
            &&& step.ack is None
            &&& step.action is Again
        }),
        ({
            let (state, step) = d.on_reported(done);
            &&& state is Overridden
            &&& state->Overridden_setting == setting
            &&& state->Overridden_overridden == seen
            &&& state->Overridden_deadline == later_by(done, d.override_duration)
            &&& step.ack is None
            &&& step.action is Again
        }),
{
}

/// A setting that the backend has seen already is handed to the driver at the next
/// poll, with its client if it has one. What is known of it stays.
pub proof fn reasserted_setting_is_handed_over<T: ReadWriteCompat, S>(
    d: OverridableDevice<T, S>,
    setting: T,
    seen: T,
    deadline: Instant,
    responder: Option<S>,
    now: Instant,
)
    requires
        d.state == (State::<T, S>::ApplyingTrans {
            setting,
            last_seen: seen,
            deadline,
            responder,
            needs_report: false,
        }),
    ensures
        d.on_poll(now).0 == (State::<T, S>::Applying {
            setting,
            last_seen: seen,
            deadline,
            needs_reaffirm: false,
        }),
        d.on_poll(now).1.ack is None,
        d.on_poll(now).1.action == SettingAction::<T, S>::Ready((setting, responder)),
{
}

/// The end of an override. If what to go back to is what the hardware has, the
/// device is in sync. Otherwise it is to be applied, with nobody to answer and an
/// envelope that starts now. This is so for a poll and for a wait that is over.
pub proof fn override_ends<T: ReadWriteCompat, S>(
    d: OverridableDevice<T, S>,
    target: T,
    current: T,
    end: Instant,
    now: Instant,
)
    requires
        now + d.envelope <= Instant::MAX,
        d.override_duration is Some,
        d.state == (State::<T, S>::Overridden {
            setting: target,
            overridden: current,
            deadline: end,
        }),
        end <= now,
    ensures
        d.on_poll(now).1.ack is None,
        d.on_poll(now).1.action is Again,
        target.is_same(current) ==> d.on_poll(now).0 == (State::<T, S>::Synced { value: current }),
        !target.is_same(current) ==> is_to_be_applied(
            d,
            d.on_poll(now).0,
            target,
            current,
            None,
            now,
        ),
        d.on_elapsed(now) == d.on_poll(now),
{
}

/// The first setting of a device, once the backend has it, is handed to the driver
/// with its client. It counts as the latest reading, and an envelope starts.
pub proof fn first_setting_is_handed_over<T: ReadWriteCompat, S>(
    d: OverridableDevice<T, S>,
    value: T,
    report: Option<S>,
    now: Instant,
)
    requires
        now + d.envelope <= Instant::MAX,
        d.state == (State::<T, S>::UnknownTrans { value, report }),
    ensures
        ({
            let (state, step) = d.on_reported(now);
            &&& state is Applying
            &&& state->Applying_setting == value
            &&& state->Applying_last_seen == value
            &&& state->Applying_deadline == now + d.envelope
            &&& !state->Applying_needs_reaffirm
            &&& step.ack is None
            &&& step.action == SettingAction::<T, S>::Ready((value, report))
        }),
{
}

/// A new setting, once the backend has it, is handed to the driver with its client
/// if it has one. What is known of it stays, and so does the end of its envelope.
pub proof fn new_setting_is_handed_over<T: ReadWriteCompat, S>(
    d: OverridableDevice<T, S>,
    setting: T,
    seen: T,
    deadline: Instant,
    responder: Option<S>,
    needs_report: bool,
    now: Instant,
)
    requires
        d.state == (State::<T, S>::ApplyingTrans {
            setting,
            last_seen: seen,
            deadline,
            responder,
            needs_report,
        }),
    ensures
        d.on_reported(now).0 == (State::<T, S>::Applying {
            setting,
            last_seen: seen,
            deadline,
            needs_reaffirm: false,
        }),
        d.on_reported(now).1.ack is None,
        d.on_reported(now).1.action == SettingAction::<T, S>::Ready((setting, responder)),
{
}

/// A setting that was sent again, once the backend has seen it again, leaves the
/// device as it was before.
pub proof fn repeated_setting_is_settled<T: ReadWriteCompat, S>(
    d: OverridableDevice<T, S>,
    setting: T,
    seen: T,
    deadline: Instant,
    now: Instant,
)
    ensures
        d.state == (State::<T, S>::SyncedTrans { value: setting }) ==> {
            let (state, step) = d.on_reported(now);
            &&& state == (State::<T, S>::Synced { value: setting })
            &&& step.ack is None
            &&& step.action is Again
        },
        d.state == (State::<T, S>::Applying {
            setting,
            last_seen: seen,
            deadline,
            needs_reaffirm: true,
        }) ==> {
            let (state, step) = d.on_reported(now);
            &&& state == (State::<T, S>::Applying {
                setting,
                last_seen: seen,
                deadline,
                needs_reaffirm: false,
            })
            &&& step.ack is None
            &&& step.action is Again
        },
{
}

/// A poll is always in order, and so is any event that the device waits for, at any
/// time that leaves room on the clock for the timeouts.
pub proof fn events_in_order_are_accepted<T: ReadWriteCompat, S>(
    d: OverridableDevice<T, S>,
    value: T,
    responder: S,
    now: Instant,
)
    requires
        now + d.envelope <= Instant::MAX,
        later_by(now, d.override_duration) <= Instant::MAX,
    ensures
        d.clock_fits(now),
        d.accepts(Event::Poll) && d.step_fits(Event::Poll, now),
        d.on_poll(now).1.action is Wait ==> {
            &&& d.accepts(Event::Setting(value, responder)) && d.step_fits(
                Event::Setting(value, responder),
                now,
            )
            &&& d.accepts(Event::Closed) && d.step_fits(Event::Closed, now)
        },
{
}

} // verus!
