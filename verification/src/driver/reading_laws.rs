//! What a single reading does to an `OverridableDevice`, state by state.

use crate::device::ReadWriteCompat;
use crate::driver::overridable_device::{Action, OverridableDevice, SettingAction, State};
use crate::time::Instant;
use vstd::prelude::*;

verus! {

/// The point in time that lies an optional period after `start`.
pub open spec fn later_by(start: Instant, period: Option<u128>) -> int {
    start + (if period is Some {
        period->0 as int
    } else {
        0
    })
}

/// The last value of a device is what it was set to, unless it is overridden: then
/// it is what the hardware has.
pub proof fn last_value_by_state<T, S>(
    value: T,
    other: T,
    s: Option<S>,
    deadline: Instant,
    flag: bool,
)
    ensures
        State::<T, S>::Unknown.last() is None,
        (State::<T, S>::UnknownTrans { value, report: s }).last() == Some(value),
        (State::<T, S>::Synced { value }).last() == Some(value),
        (State::<T, S>::SyncedTrans { value }).last() == Some(value),
        (State::<T, S>::Applying {
            setting: value,
            last_seen: other,
            deadline,
            needs_reaffirm: flag,
        }).last() == Some(value),
        (State::<T, S>::ApplyingTrans {
            setting: value,
            last_seen: other,
            deadline,
            responder: s,
            needs_report: flag,
        }).last() == Some(value),
        (State::<T, S>::Overridden { setting: other, overridden: value, deadline }).last() == Some(
            value,
        ),
{
}

/// A change of state leaves the timeouts of the device.
pub proof fn timeouts_stay<T: ReadWriteCompat, S>(d: OverridableDevice<T, S>, state: State<T, S>)
    ensures
        d.with(state).state == state,
        d.with(state).envelope == d.envelope,
        d.with(state).override_duration == d.override_duration,
{
}

/// The first reading of a device is written, and the device is in sync with it.
pub proof fn first_reading_is_trusted<T: ReadWriteCompat, S>(
    d: OverridableDevice<T, S>,
    reading: T,
    now: Instant,
)
    requires
        d.state is Unknown,
    ensures
        d.reports(reading),
        d.after_reading(reading, now) == (State::<T, S>::Synced { value: reading }),
        d.answered_by_reading(reading) is None,
{
}

/// A reading while the first setting is on its way to the backend is ignored.
pub proof fn reading_before_the_first_setting_is_ignored<T: ReadWriteCompat, S>(
    d: OverridableDevice<T, S>,
    reading: T,
    now: Instant,
)
    requires
        d.state is UnknownTrans,
    ensures
        !d.reports(reading),
        d.after_reading(reading, now) == d.state,
        d.answered_by_reading(reading) is None,
{
}

/// A reading that equals the value of a device in sync is neither written nor does
/// it change anything.
pub proof fn matching_reading_keeps_sync<T: ReadWriteCompat, S>(
    d: OverridableDevice<T, S>,
    value: T,
    reading: T,
    now: Instant,
)
    requires
        d.state == (State::<T, S>::Synced { value }) || d.state == (State::<T, S>::SyncedTrans {
            value,
        }),
        value.is_same(reading),
    ensures
        !d.reports(reading),
        d.after_reading(reading, now) == d.state,
        d.answered_by_reading(reading) is None,
{
}

/// A reading that differs from the value of a device in sync is an override: it is
/// written, the synced value is what to go back to, and the override ends when the
/// override duration has passed. It does not matter whether there is an envelope.
pub proof fn differing_reading_is_an_override<T: ReadWriteCompat, S>(
    d: OverridableDevice<T, S>,
    value: T,
    reading: T,
    now: Instant,
)
    requires
        d.state == (State::<T, S>::Synced { value }) || d.state == (State::<T, S>::SyncedTrans {
            value,
        }),
        !value.is_same(reading),
        later_by(now, d.override_duration) <= Instant::MAX,
    ensures
        d.reports(reading),
        d.answered_by_reading(reading) is None,
        d.after_reading(reading, now) matches State::Overridden { setting, overridden, deadline }
            && setting == value && overridden == reading && deadline == later_by(
            now,
            d.override_duration,
        ),
{
}

/// An override that is left alone is undone: until the override duration has passed
/// since the reading, the device waits for the rest of it; from then on, the value
/// from before is reported and handed to the driver, with nobody to answer.
pub proof fn override_is_undone<T: ReadWriteCompat, S>(
    d: OverridableDevice<T, S>,
    value: T,
    reading: T,
    now: Instant,
    at: Instant,
    later: Instant,
)
    requires
        d.state == (State::<T, S>::Synced { value }) || d.state == (State::<T, S>::SyncedTrans {
            value,
        }),
        !value.is_same(reading),
        d.override_duration is Some,
        now + d.override_duration->0 <= Instant::MAX,
        now <= at,
    ensures
        ({
            let end = now + d.override_duration->0;
            let overridden = d.with(d.after_reading(reading, now));
            let (state, step) = overridden.on_poll(at);
            let next = d.with(state);
            if at < end {
                &&& state == overridden.state
                &&& step.action matches Action::Wait(Some(left)) && left == end - at
            } else {
                &&& step.action is Again
                &&& next.on_poll(later).1.action == SettingAction::<T, S>::Report(value)
                &&& next.on_reported(later).1.action == SettingAction::<T, S>::Ready((value, None))
            }
        }),
{
}

/// While a setting is being applied within an envelope, a reading that equals it is
/// remembered. Nothing else changes.
pub proof fn matching_reading_within_the_envelope<T: ReadWriteCompat, S>(
    d: OverridableDevice<T, S>,
    setting: T,
    seen: T,
    deadline: Instant,
    needs_reaffirm: bool,
    reading: T,
    now: Instant,
)
    requires
        d.envelope > 0,
        d.state == (State::<T, S>::Applying { setting, last_seen: seen, deadline, needs_reaffirm }),
        setting.is_same(reading),
    ensures
        !d.reports(reading),
        d.answered_by_reading(reading) is None,
        d.after_reading(reading, now) == (State::<T, S>::Applying {
            setting,
            last_seen: reading,
            deadline,
            needs_reaffirm,
        }),
{
}

/// Without an envelope, a reading that equals the setting being applied brings the
/// device in sync. A write that is owed stays owed.
pub proof fn matching_reading_without_an_envelope<T: ReadWriteCompat, S>(
    d: OverridableDevice<T, S>,
    setting: T,
    seen: T,
    deadline: Instant,
    needs_reaffirm: bool,
    reading: T,
    now: Instant,
)
    requires
        d.envelope == 0,
        d.state == (State::<T, S>::Applying { setting, last_seen: seen, deadline, needs_reaffirm }),
        setting.is_same(reading),
    ensures
        !d.reports(reading),
        d.answered_by_reading(reading) is None,
        needs_reaffirm ==> d.after_reading(reading, now) == (State::<T, S>::SyncedTrans {
            value: setting,
        }),
        !needs_reaffirm ==> d.after_reading(reading, now) == (State::<T, S>::Synced {
            value: setting,
        }),
{
}

/// A reading that differs from the setting being applied is not written: the
/// setting is to be handed over again, to nobody's answer, and a fresh envelope
/// starts now.
pub proof fn differing_reading_restarts_the_envelope<T: ReadWriteCompat, S>(
    d: OverridableDevice<T, S>,
    setting: T,
    seen: T,
    deadline: Instant,
    needs_reaffirm: bool,
    reading: T,
    now: Instant,
)
    requires
        now + d.envelope <= Instant::MAX,
        d.state == (State::<T, S>::Applying { setting, last_seen: seen, deadline, needs_reaffirm }),
        !setting.is_same(reading),
    ensures
        !d.reports(reading),
        d.answered_by_reading(reading) is None,
        ({
            let state = d.after_reading(reading, now);
            &&& state is ApplyingTrans
            &&& state->ApplyingTrans_setting == setting
            &&& state->ApplyingTrans_last_seen == reading
            &&& state->ApplyingTrans_deadline == now + d.envelope
            &&& state->ApplyingTrans_responder is None
            &&& !state->ApplyingTrans_needs_report
        }),
{
}

/// A reading that equals a setting which has yet to be handed over makes that
/// needless: its client is answered with the reading. Within an envelope the device
/// goes on as if the setting had been handed over, and without one it is in sync.
pub proof fn reading_makes_a_hand_over_needless<T: ReadWriteCompat, S>(
    d: OverridableDevice<T, S>,
    setting: T,
    seen: T,
    deadline: Instant,
    responder: Option<S>,
    needs_report: bool,
    reading: T,
    now: Instant,
)
    requires
        d.state == (State::<T, S>::ApplyingTrans {
            setting,
            last_seen: seen,
            deadline,
            responder,
            needs_report,
        }),
        setting.is_same(reading),
    ensures
        !d.reports(reading),
        responder matches Some(s) ==> d.answered_by_reading(reading) == Some((s, reading)),
        responder is None ==> d.answered_by_reading(reading) is None,
        d.envelope > 0 ==> d.after_reading(reading, now) == (State::<T, S>::Applying {
            setting,
            last_seen: setting,
            deadline,
            needs_reaffirm: false,
        }),
        d.envelope == 0 ==> d.after_reading(reading, now) == (State::<T, S>::Synced {
            value: setting,
        }),
{
}

/// A reading that differs from a setting which has yet to be handed over is
/// remembered and starts a fresh envelope. What is to be handed over, and to whom,
/// stays, and so does a write that is owed.
pub proof fn reading_leaves_a_hand_over<T: ReadWriteCompat, S>(
    d: OverridableDevice<T, S>,
    setting: T,
    seen: T,
    deadline: Instant,
    responder: Option<S>,
    needs_report: bool,
    reading: T,
    now: Instant,
)
    requires
        now + d.envelope <= Instant::MAX,
        d.state == (State::<T, S>::ApplyingTrans {
            setting,
            last_seen: seen,
            deadline,
            responder,
            needs_report,
        }),
        !setting.is_same(reading),
    ensures
        !d.reports(reading),
        d.answered_by_reading(reading) is None,
        ({
            let state = d.after_reading(reading, now);
            &&& state is ApplyingTrans
            &&& state->ApplyingTrans_setting == setting
            &&& state->ApplyingTrans_last_seen == reading
            &&& state->ApplyingTrans_deadline == now + d.envelope
            &&& state->ApplyingTrans_responder == responder
            &&& state->ApplyingTrans_needs_report == needs_report
        }),
{
}

/// A reading of an overridden device is written exactly if it differs from the
/// override so far. If it is the setting, the device is in sync again. If it is the
/// override, nothing changes. Otherwise it is the override from now on, which ends
/// an override duration from now, and the setting to go back to stays.
pub proof fn reading_of_an_overridden_device<T: ReadWriteCompat, S>(
    d: OverridableDevice<T, S>,
    target: T,
    current: T,
    end: Instant,
    reading: T,
    now: Instant,
)
    requires
        later_by(now, d.override_duration) <= Instant::MAX,
        d.state == (State::<T, S>::Overridden {
            setting: target,
            overridden: current,
            deadline: end,
        }),
    ensures
        d.reports(reading) <==> !current.is_same(reading),
        d.answered_by_reading(reading) is None,
        target.is_same(reading) ==> d.after_reading(reading, now) == (State::<T, S>::Synced {
            value: target,
        }),
        !target.is_same(reading) && current.is_same(reading) ==> d.after_reading(reading, now)
            == d.state,
        !target.is_same(reading) && !current.is_same(reading) ==> {
            let state = d.after_reading(reading, now);
            &&& state is Overridden
            &&& state->Overridden_setting == target
            &&& state->Overridden_overridden == reading
            &&& state->Overridden_deadline == later_by(now, d.override_duration)
        },
{
}

} // verus!
