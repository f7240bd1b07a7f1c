//! What holds of an `OverridableDevice` over several steps.

use crate::device::ReadWriteCompat;
use crate::driver::overridable_device::{
    Action, Event, OverridableDevice, SettingAction, SettingStep, State,
};
use crate::time::Instant;
use vstd::multiset::Multiset;
use vstd::prelude::*;

verus! {

/// A step that leaves something to wait for changes nothing: until it is done,
/// the wait can be given up.
pub proof fn waiting_changes_nothing<T: ReadWriteCompat, S>(
    d: OverridableDevice<T, S>,
    event: Event<T, S>,
    now: Instant,
)
    requires
        d.accepts(event),
    ensures
        ({
            let (state, step) = d.on_event(event, now);
            step.action is Report || step.action is ReportAt || step.action is Wait
                || step.action is Finished ==> state == d.state
        }),
{
}

/// The value that an action has written to the backend.
pub open spec fn to_write<T, S>(action: SettingAction<T, S>) -> Option<T> {
    match action {
        Action::Report(v) => Some(v),
        Action::ReportAt(v, _) => Some(v),
        _ => None,
    }
}

/// A write that was given up is asked for again, whenever the caller comes back.
pub proof fn cancelled_report_is_asked_for_again<T: ReadWriteCompat, S>(
    d: OverridableDevice<T, S>,
    now: Instant,
    later: Instant,
)
    requires
        to_write(d.on_poll(now).1.action) is Some,
        now <= later,
    ensures
        d.on_poll(later).0 == d.state,
        to_write(d.on_poll(later).1.action) == to_write(d.on_poll(now).1.action),
{
}

/// The same holds of the write that follows a wait which has run its course.
pub proof fn cancelled_report_after_wait_is_asked_for_again<T: ReadWriteCompat, S>(
    d: OverridableDevice<T, S>,
    now: Instant,
    later: Instant,
)
    requires
        d.accepts(Event::Elapsed),
        d.step_fits(Event::Elapsed, now),
        to_write(d.on_elapsed(now).1.action) is Some,
        now <= later,
    ensures
        d.on_poll(later).0 == d.state,
        to_write(d.on_poll(later).1.action) == to_write(d.on_elapsed(now).1.action),
{
}

/// A wait that was given up is taken up where it was left: its end is a fixed
/// point in time.
pub proof fn cancelled_wait_keeps_its_end<T: ReadWriteCompat, S>(
    d: OverridableDevice<T, S>,
    now: Instant,
    later: Instant,
)
    requires
        d.on_poll(now).1.action matches Action::Wait(Some(left)) && now <= later < now + left,
    ensures
        ({
            let left = d.on_poll(now).1.action->Wait_0->0;
            &&& left > 0
            &&& d.on_poll(later).0 == d.state
            &&& d.on_poll(later).1.action == SettingAction::<T, S>::Wait(
                Some((now + left - later) as u128),
            )
        }),
{
}

/// What a step asks for can be answered: the events that its action can lead to
/// are accepted in the state that it leaves, at any later time that the clock can
/// show, and after a wait once that is over.
pub proof fn actions_lead_to_accepted_events<T: ReadWriteCompat, S>(
    d: OverridableDevice<T, S>,
    event: Event<T, S>,
    now: Instant,
    later: Instant,
    value: T,
    responder: S,
)
    requires
        d.accepts(event),
        d.step_fits(event, now),
        now <= later,
        d.clock_fits(later),
    ensures
        ({
            let (state, step) = d.on_event(event, now);
            let next = d.with(state);
            let ready = |e: Event<T, S>| next.accepts(e) && next.step_fits(e, later);
            &&& ready(Event::Poll)
            &&& step.action is Report ==> ready(Event::Reported)
            &&& step.action matches Action::ReportAt(_, at) ==> ready(Event::ReportedAt(at))
            &&& step.action is Wait ==> ready(Event::Setting(value, responder)) && ready(
                Event::Closed,
            )
            &&& step.action matches Action::Wait(Some(left)) ==> now + left <= later ==> ready(
                Event::Elapsed,
            )
        }),
{
}

/// A caller that polls twice at the same time is told to do something: a round
/// of `next_setting` does not go on forever without an event.
pub proof fn rounds_come_to_an_end<T: ReadWriteCompat, S>(
    d: OverridableDevice<T, S>,
    now: Instant,
)
    ensures
        ({
            let (state, step) = d.on_poll(now);
            step.action is Again ==> !(d.with(state).on_poll(now).1.action is Again)
        }),
{
}

/// A responder or none, as a collection.
pub open spec fn bag<S>(s: Option<S>) -> Multiset<S> {
    match s {
        Some(s) => Multiset::singleton(s),
        None => Multiset::empty(),
    }
}

/// The responder that comes in with an event.
pub open spec fn brought<T, S>(event: Event<T, S>) -> Option<S> {
    match event {
        Event::Setting(_, s) => Some(s),
        _ => None,
    }
}

/// The responder that a step answers.
pub open spec fn answered<T, S>(ack: Option<(S, T)>) -> Option<S> {
    match ack {
        Some((s, _)) => Some(s),
        None => None,
    }
}

/// The responder that a step hands to the driver.
pub open spec fn handed_over<T, S>(action: SettingAction<T, S>) -> Option<S> {
    match action {
        Action::Ready((_, s)) => s,
        _ => None,
    }
}

/// No client is forgotten and none is answered twice: a responder that comes in
/// is kept, answered, or handed to the driver, and only one of these.
pub proof fn responders_are_conserved<T: ReadWriteCompat, S>(
    d: OverridableDevice<T, S>,
    event: Event<T, S>,
    now: Instant,
)
    requires
        d.accepts(event),
    ensures
        ({
            let (state, step) = d.on_event(event, now);
            bag(d.state.owed()).add(bag(brought(event))) =~= bag(state.owed()).add(
                bag(answered(step.ack)),
            ).add(bag(handed_over(step.action)))
        }),
{
}

/// The same holds of readings.
pub proof fn readings_conserve_responders<T: ReadWriteCompat, S>(
    d: OverridableDevice<T, S>,
    new_value: T,
    now: Instant,
)
    ensures
        bag(d.state.owed()) =~= bag(d.after_reading(new_value, now).owed()).add(
            bag(answered(d.answered_by_reading(new_value))),
        ),
{
}

/// Whether `a` is `b` or equals it. (NaN is itself, but does not equal itself.)
pub open spec fn alike<T: ReadWriteCompat>(a: T, b: T) -> bool {
    a == b || a.is_same(b)
}

/// The same of values that need not be there.
pub open spec fn both_alike<T: ReadWriteCompat>(a: Option<T>, b: Option<T>) -> bool {
    match (a, b) {
        (Some(a), Some(b)) => alike(a, b),
        (None, None) => true,
        _ => false,
    }
}

/// Whether the value that was last written to the backend fits the state. While a
/// setting is being applied, it is that setting. Where something is yet to be
/// written, anything fits.
pub open spec fn fits<T: ReadWriteCompat, S>(state: State<T, S>, written: Option<T>) -> bool {
    match state {
        State::Unknown | State::UnknownTrans { .. } => true,
        State::Applying { setting, .. } => written == Some(setting),
        State::ApplyingTrans { setting, needs_report, .. } => needs_report || written == Some(
            setting,
        ),
        _ => both_alike(written, state.last()),
    }
}

/// The value that is being written when the backend is said to have it.
pub open spec fn asked<T, S>(state: State<T, S>) -> Option<T> {
    match state {
        State::UnknownTrans { value, .. } | State::SyncedTrans { value } => Some(value),
        State::Applying { setting, last_seen, needs_reaffirm, .. } => if needs_reaffirm {
            Some(setting)
        } else {
            Some(last_seen)
        },
        State::ApplyingTrans { setting, .. } => Some(setting),
        _ => None,
    }
}

/// The value that a step has written is the one that the state asks for.
pub proof fn reports_are_what_the_state_asks_for<T: ReadWriteCompat, S>(
    d: OverridableDevice<T, S>,
    event: Event<T, S>,
    now: Instant,
)
    requires
        d.accepts(event),
    ensures
        to_write(d.on_event(event, now).1.action) matches Some(v) ==> asked(
            d.on_event(event, now).0,
        ) == Some(v),
{
}

/// Whether a reading equals a setting which the backend has yet to see.
pub open spec fn forestalls<T: ReadWriteCompat, S>(state: State<T, S>, new_value: T) -> bool {
    state matches State::ApplyingTrans { setting, needs_report: true, .. } && setting.is_same(
        new_value,
    )
}

/// What can happen to a device.
pub enum Move<T, S> {
    /// A step of `next_setting`.
    Step(Event<T, S>, Instant),
    /// A reading, after what is due for it has been written.
    Reading(T, Instant),
    /// A reset.
    Reset,
}

/// Whether a move can happen in this state. Left out is a reading that equals a
/// setting which the backend has yet to see: the backend is not told of it.
pub open spec fn possible<T: ReadWriteCompat, S>(d: OverridableDevice<T, S>, m: Move<T, S>) -> bool {
    match m {
        Move::Step(event, _) => d.accepts(event),
        Move::Reading(new_value, _) => !forestalls(d.state, new_value),
        Move::Reset => true,
    }
}

/// The device after a move.
pub open spec fn moved<T: ReadWriteCompat, S>(
    d: OverridableDevice<T, S>,
    m: Move<T, S>,
) -> OverridableDevice<T, S> {
    match m {
        Move::Step(event, now) => d.with(d.on_event(event, now).0),
        Move::Reading(new_value, now) => d.with(d.after_reading(new_value, now)),
        Move::Reset => d.with(State::Unknown),
    }
}

/// The value that was last written to the backend, after a move.
pub open spec fn written_after<T: ReadWriteCompat, S>(
    d: OverridableDevice<T, S>,
    m: Move<T, S>,
    written: Option<T>,
) -> Option<T> {
    match m {
        Move::Step(Event::Reported, _) => asked(d.state),
        Move::Step(Event::ReportedAt(_), _) => asked(d.state),
        Move::Reading(new_value, _) => if d.reports(new_value) {
            Some(new_value)
        } else {
            written
        },
        _ => written,
    }
}

/// Every move leaves the backend as the state has it.
pub proof fn backend_keeps_up<T: ReadWriteCompat, S>(
    d: OverridableDevice<T, S>,
    m: Move<T, S>,
    written: Option<T>,
)
    requires
        fits(d.state, written),
        possible(d, m),
    ensures
        fits(moved(d, m).state, written_after(d, m, written)),
{
    match (m, d.state) {
        (Move::Step(Event::Setting(v, _), _), State::Synced { value }) => {
            if v.is_same(value) {
                T::same_is_symmetric(v, value);
                if written->0.is_same(value) {
                    T::same_is_transitive(written->0, value, v);
                }
            }
        },
        (Move::Reading(v, _), State::Overridden { setting, overridden, .. }) => {
            if setting.is_same(v) {
                T::same_is_symmetric(setting, v);
                if overridden.is_same(v) {
                    T::same_is_transitive(overridden, v, setting);
                    if written->0.is_same(overridden) {
                        T::same_is_transitive(written->0, overridden, setting);
                    }
                }
            }
        },
        _ => {},
    }
}

/// The device and the value that was last written, after a series of moves.
pub open spec fn after_moves<T: ReadWriteCompat, S>(
    d: OverridableDevice<T, S>,
    written: Option<T>,
    moves: Seq<Move<T, S>>,
) -> (OverridableDevice<T, S>, Option<T>)
    decreases moves.len(),
{
    if moves.len() == 0 {
        (d, written)
    } else {
        let (before, had) = after_moves(d, written, moves.drop_last());
        (moved(before, moves.last()), written_after(before, moves.last(), had))
    }
}

/// Whether a series of moves can happen.
pub open spec fn all_possible<T: ReadWriteCompat, S>(
    d: OverridableDevice<T, S>,
    written: Option<T>,
    moves: Seq<Move<T, S>>,
) -> bool {
    forall|i: int|
        0 <= i < moves.len() ==> possible(
            after_moves(d, written, moves.take(i)).0,
            #[trigger] moves[i],
        )
}

/// Whatever has happened to a device, the backend is as its state has it. The
/// device may start with a value to assert or with nothing known.
pub proof fn backend_always_keeps_up<T: ReadWriteCompat, S>(
    d: OverridableDevice<T, S>,
    written: Option<T>,
    moves: Seq<Move<T, S>>,
)
    requires
        fits(d.state, written),
        all_possible(d, written, moves),
    ensures
        ({
            let (now, has) = after_moves(d, written, moves);
            fits(now.state, has)
        }),
    decreases moves.len(),
{
    if moves.len() > 0 {
        let fewer = moves.drop_last();
        let n = fewer.len() as int;
        assert forall|i: int| 0 <= i < fewer.len() implies possible(
            after_moves(d, written, fewer.take(i)).0,
            #[trigger] fewer[i],
        ) by {
            assert(fewer[i] == moves[i]);
            assert(fewer.take(i) =~= moves.take(i));
        }
        backend_always_keeps_up(d, written, fewer);
        assert(moves.take(n) =~= fewer);
        assert(possible(after_moves(d, written, moves.take(n)).0, moves[n]));
        let (before, had) = after_moves(d, written, fewer);
        backend_keeps_up(before, moves.last(), had);
    }
}

/// Whenever the driver is told to apply a value, or to apply it again, that value
/// is the last of the device, and the backend shows it already. This holds
/// whatever has happened to the device before.
pub proof fn handed_out_settings_are_written<T: ReadWriteCompat, S>(
    d: OverridableDevice<T, S>,
    written: Option<T>,
    moves: Seq<Move<T, S>>,
    event: Event<T, S>,
    now: Instant,
)
    requires
        fits(d.state, written),
        all_possible(d, written, moves),
        after_moves(d, written, moves).0.accepts(event),
    ensures
        ({
            let (before, had) = after_moves(d, written, moves);
            let (state, step) = before.on_event(event, now);
            step.action matches Action::Ready((v, _)) ==> {
                &&& state.last() == Some(v)
                &&& written_after(before, Move::Step(event, now), had) == Some(v)
            }
        }),
{
    backend_always_keeps_up(d, written, moves);
}

/// A reading that is written becomes the last value of the device. One that is
/// not written leaves the last value as it was.
pub proof fn readings_and_the_last_value<T: ReadWriteCompat, S>(
    d: OverridableDevice<T, S>,
    new_value: T,
    now: Instant,
)
    ensures
        d.reports(new_value) ==> both_alike(
            d.after_reading(new_value, now).last(),
            Some(new_value),
        ),
        !d.reports(new_value) ==> both_alike(
            d.after_reading(new_value, now).last(),
            d.state.last(),
        ),
{
    if let State::Overridden { setting, overridden, .. } = d.state {
        if setting.is_same(new_value) && overridden.is_same(new_value) {
            T::same_is_symmetric(overridden, new_value);
            T::same_is_transitive(setting, new_value, overridden);
        }
    }
}

/// A reading is written only if it differs from the last value of the device.
pub proof fn only_changes_are_written<T: ReadWriteCompat, S>(
    d: OverridableDevice<T, S>,
    new_value: T,
)
    requires
        d.reports(new_value),
    ensures
        d.state.last() matches Some(last) ==> !last.is_same(new_value),
{
}

/// A reading that is repeated at once is not written again. Left out are values
/// that do not equal themselves, such as NaN.
pub proof fn repeated_reading_is_not_written<T: ReadWriteCompat, S>(
    d: OverridableDevice<T, S>,
    new_value: T,
    now: Instant,
)
    requires
        new_value.is_same(new_value),
    ensures
        !d.with(d.after_reading(new_value, now)).reports(new_value),
{
}

/// While a setting is being applied within an envelope, no reading ends that; none
/// is written to the backend, and none changes the setting.
pub proof fn readings_do_not_end_the_envelope<T: ReadWriteCompat, S>(
    d: OverridableDevice<T, S>,
    new_value: T,
    now: Instant,
)
    requires
        d.envelope > 0,
        d.state is Applying || d.state is ApplyingTrans,
    ensures
        ({
            let state = d.after_reading(new_value, now);
            &&& state is Applying || state is ApplyingTrans
            &&& state.last() == d.state.last()
            &&& !d.reports(new_value)
        }),
{
}

/// A reading that differs from the setting being applied has the setting handed
/// to the driver once more, without another report, and extends the envelope.
pub proof fn mismatch_reasserts_the_setting<T: ReadWriteCompat, S>(
    d: OverridableDevice<T, S>,
    new_value: T,
    now: Instant,
    later: Instant,
)
    requires
        d.clock_fits(now),
        d.state matches State::Applying { setting, .. } && !setting.is_same(new_value),
    ensures
        ({
            let setting = d.state.last()->0;
            let after = d.with(d.after_reading(new_value, now));
            let (state, step) = after.on_poll(later);
            &&& step.action == SettingAction::<T, S>::Ready((setting, None))
            &&& state == State::<T, S>::Applying {
                setting,
                last_seen: new_value,
                deadline: (now + d.envelope) as u128,
                needs_reaffirm: false,
            }
        }),
{
}

/// The end of the envelope leaves the verdict to the latest reading: with the
/// setting the device is in sync. With any other value it is overridden by that
/// value, which the backend gets to see first. A caller that has waited for the
/// end starts the override once the write is done; one that comes later starts it
/// before the write.
pub proof fn latest_reading_decides<T: ReadWriteCompat, S>(
    d: OverridableDevice<T, S>,
    now: Instant,
    later: Instant,
)
    requires
        d.state matches State::Applying { deadline, needs_reaffirm: false, .. } && deadline <= now,
    ensures
        d.state matches State::Applying { setting, last_seen, .. } ==> if last_seen.is_same(
            setting,
        ) {
            &&& d.on_poll(now).0 == State::<T, S>::Synced { value: setting }
            &&& d.on_elapsed(now) == d.on_poll(now)
        } else {
            &&& d.on_elapsed(now).1.action == SettingAction::<T, S>::Report(last_seen)
            &&& d.on_reported(later).0 == State::<T, S>::Overridden {
                setting,
                overridden: last_seen,
                deadline: d.override_end(later),
            }
            &&& d.on_poll(now).1.action == SettingAction::<T, S>::ReportAt(last_seen, now)
            &&& d.on_event(Event::ReportedAt(now), later).0 == State::<T, S>::Overridden {
                setting,
                overridden: last_seen,
                deadline: d.override_end(now),
            }
        },
{
}

/// Whether an envelope, if there is one, is over.
pub open spec fn envelope_is_over<T, S>(state: State<T, S>, now: Instant) -> bool {
    match state {
        State::Applying { deadline, .. } => deadline <= now,
        State::ApplyingTrans { deadline, .. } => deadline <= now,
        _ => true,
    }
}

/// Without an envelope the device does not wait for the end of one at any time,
/// whatever has happened to it so far.
pub proof fn without_an_envelope_there_is_no_wait<T: ReadWriteCompat, S>(
    d: OverridableDevice<T, S>,
    event: Event<T, S>,
    new_value: T,
    now: Instant,
    later: Instant,
)
    requires
        d.envelope == 0,
        envelope_is_over(d.state, now),
        d.accepts(event),
        now <= later,
    ensures
        envelope_is_over(d.on_event(event, now).0, later),
        envelope_is_over(d.after_reading(new_value, now), later),
        d.state is Applying || d.state is ApplyingTrans ==> !(d.on_poll(now).1.action is Wait),
{
}

/// Without an envelope a reading that matches the setting being applied is trusted
/// immediately: the device is in sync. If the next reading differs, then that is
/// an override, and it is written to the backend.
pub proof fn without_an_envelope_a_match_is_trusted<T: ReadWriteCompat, S>(
    d: OverridableDevice<T, S>,
    first: T,
    second: T,
    now: Instant,
    later: Instant,
)
    requires
        d.envelope == 0,
        d.state is Applying || d.state is ApplyingTrans,
        d.state.last()->0.is_same(first),
        !d.state.last()->0.is_same(second),
    ensures
        ({
            let setting = d.state.last()->0;
            let synced = d.with(d.after_reading(first, now));
            &&& synced.state is Synced || synced.state is SyncedTrans
            &&& synced.state.last() == Some(setting)
            &&& synced.reports(second)
            &&& synced.after_reading(second, later) == State::<T, S>::Overridden {
                setting,
                overridden: second,
                deadline: d.override_end(later),
            }
        }),
{
}

/// The device after a series of readings.
pub open spec fn after_readings<T: ReadWriteCompat, S>(
    d: OverridableDevice<T, S>,
    readings: Seq<(T, Instant)>,
) -> OverridableDevice<T, S>
    decreases readings.len(),
{
    if readings.len() == 0 {
        d
    } else {
        let before = after_readings(d, readings.drop_last());
        before.with(before.after_reading(readings.last().0, readings.last().1))
    }
}

/// However often an overridden device changes, it goes back to the setting that
/// it had before, as long as no reading is that setting.
pub proof fn override_keeps_the_setting<T: ReadWriteCompat, S>(
    d: OverridableDevice<T, S>,
    readings: Seq<(T, Instant)>,
)
    requires
        d.state matches State::Overridden { setting, .. } && forall|i: int|
            0 <= i < readings.len() ==> !setting.is_same((#[trigger] readings[i]).0),
    ensures
        after_readings(d, readings).state is Overridden,
        after_readings(d, readings).state->Overridden_setting == d.state->Overridden_setting,
        after_readings(d, readings) == d.with(after_readings(d, readings).state),
    decreases readings.len(),
{
    if readings.len() > 0 {
        let fewer = readings.drop_last();
        assert forall|i: int| 0 <= i < fewer.len() implies !d.state->Overridden_setting.is_same(
            (#[trigger] fewer[i]).0,
        ) by {
            assert(fewer[i] == readings[i]);
        }
        override_keeps_the_setting(d, fewer);
        assert(readings.last() == readings[readings.len() - 1]);
    }
}

/// Whether a move leaves an override in place: a poll before the override ends, a
/// setting, the end of the settings, or a reading of the override value, unless
/// that value is also the one to go back to.
pub open spec fn leaves_override<T: ReadWriteCompat, S>(
    d: OverridableDevice<T, S>,
    m: Move<T, S>,
) -> bool {
    match d.state {
        State::Overridden { setting, overridden, deadline } => match m {
            Move::Step(Event::Poll, now) => d.override_duration is None || now < deadline,
            Move::Step(Event::Setting(..), _) => true,
            Move::Step(Event::Closed, _) => true,
            Move::Reading(v, _) => overridden.is_same(v) && !setting.is_same(v),
            _ => false,
        },
        _ => false,
    }
}

/// The last setting of a series of moves, or `first` if there is none.
pub open spec fn last_setting<T, S>(first: T, moves: Seq<Move<T, S>>) -> T
    decreases moves.len(),
{
    if moves.len() == 0 {
        first
    } else {
        match moves.last() {
            Move::Step(Event::Setting(v, _), _) => v,
            _ => last_setting(first, moves.drop_last()),
        }
    }
}

/// The end of an override is fixed: whatever polls, settings and repeated readings
/// come before it, the override and its end stay as they were, and the setting to
/// go back to is the last one that came.
pub proof fn override_end_is_fixed<T: ReadWriteCompat, S>(
    d: OverridableDevice<T, S>,
    written: Option<T>,
    moves: Seq<Move<T, S>>,
)
    requires
        d.state is Overridden,
        forall|i: int|
            0 <= i < moves.len() ==> leaves_override(
                after_moves(d, written, moves.take(i)).0,
                #[trigger] moves[i],
            ),
    ensures
        after_moves(d, written, moves) == (
            d.with(
                State::Overridden {
                    setting: last_setting(d.state->Overridden_setting, moves),
                    overridden: d.state->Overridden_overridden,
                    deadline: d.state->Overridden_deadline,
                },
            ),
            written,
        ),
    decreases moves.len(),
{
    if moves.len() > 0 {
        let fewer = moves.drop_last();
        let n = fewer.len() as int;
        assert forall|i: int| 0 <= i < fewer.len() implies leaves_override(
            after_moves(d, written, fewer.take(i)).0,
            #[trigger] fewer[i],
        ) by {
            assert(fewer[i] == moves[i]);
            assert(fewer.take(i) =~= moves.take(i));
        }
        override_end_is_fixed(d, written, fewer);
        assert(moves.take(n) =~= fewer);
        assert(leaves_override(after_moves(d, written, moves.take(n)).0, moves[n]));
    }
}

/// A reading of an overridden device ends the override if it is the setting. One
/// that is the override so far changes nothing, and any other starts the timer
/// anew.
pub proof fn readings_of_an_overridden_device<T: ReadWriteCompat, S>(
    d: OverridableDevice<T, S>,
    new_value: T,
    now: Instant,
)
    requires
        d.state is Overridden,
    ensures
        ({
            let setting = d.state->Overridden_setting;
            let state = d.after_reading(new_value, now);
            if setting.is_same(new_value) {
                state == State::<T, S>::Synced { value: setting }
            } else if d.state->Overridden_overridden.is_same(new_value) {
                state == d.state
            } else {
                state == State::<T, S>::Overridden {
                    setting,
                    overridden: new_value,
                    deadline: d.override_end(now),
                }
            }
        }),
{
}

/// An override that runs out has its setting reported and handed to the driver,
/// unless the device has it already: then the device is in sync.
pub proof fn override_goes_back_to_the_setting<T: ReadWriteCompat, S>(
    d: OverridableDevice<T, S>,
    now: Instant,
    later: Instant,
)
    requires
        d.override_duration is Some,
        d.state matches State::Overridden { deadline, .. } && deadline <= now,
    ensures
        d.on_elapsed(now) == d.on_poll(now),
        ({
            let setting = d.state->Overridden_setting;
            let overridden = d.state->Overridden_overridden;
            let next = d.with(d.on_poll(now).0);
            if setting.is_same(overridden) {
                next.state == State::<T, S>::Synced { value: overridden }
            } else {
                &&& next.on_poll(later).1.action == SettingAction::<T, S>::Report(setting)
                &&& next.on_reported(later).1.action == SettingAction::<T, S>::Ready((setting, None))
            }
        }),
{
}

/// Without an override duration the setting is never reasserted by itself: the
/// device waits for a setting, without a limit, and keeps it.
pub proof fn override_without_duration_stays<T: ReadWriteCompat, S>(
    d: OverridableDevice<T, S>,
    now: Instant,
    value: T,
    responder: S,
)
    requires
        d.override_duration is None,
        d.state is Overridden,
    ensures
        d.on_poll(now) == (
            d.state,
            SettingStep::<T, S> { ack: None, action: Action::Wait(None) },
        ),
        !d.accepts(Event::Elapsed),
        d.on_setting(value, responder, now).0 is Overridden,
{
}

/// A setting that is in effect already is answered at once and reported once
/// more. The driver does not get to see it.
pub proof fn redundant_setting_is_not_delivered<T: ReadWriteCompat, S>(
    d: OverridableDevice<T, S>,
    value: T,
    responder: S,
    now: Instant,
    later: Instant,
)
    requires
        d.accepts(Event::Setting(value, responder)),
        d.state is Synced || d.state is Applying,
        value.is_same(d.state.last()->0),
    ensures
        ({
            let (state, step) = d.on_setting(value, responder, now);
            let next = d.with(state);
            let reported = next.on_poll(later).1.action;
            &&& step.ack == Some((responder, value))
            &&& reported is Report
            &&& reported->Report_0 == value || reported->Report_0 == d.state.last()->0
            &&& next.on_reported(later).1.action is Again
        }),
{
}

/// A setting that is not in effect is written to the backend and then handed to
/// the driver, together with the client, who has not been answered.
pub proof fn new_setting_reaches_the_driver<T: ReadWriteCompat, S>(
    d: OverridableDevice<T, S>,
    value: T,
    responder: S,
    now: Instant,
    later: Instant,
)
    requires
        d.accepts(Event::Setting(value, responder)),
        !(d.state is Overridden),
        d.state is Unknown || !value.is_same(d.state.last()->0),
    ensures
        ({
            let (state, step) = d.on_setting(value, responder, now);
            let next = d.with(state);
            &&& step.ack is None
            &&& next.state.last() == Some(value)
            &&& next.on_poll(later) == (
                next.state,
                SettingStep::<T, S> { ack: None, action: Action::Report(value) },
            )
            &&& next.on_reported(later).1.action == SettingAction::<T, S>::Ready((value, Some(responder)))
            &&& next.on_reported(later).0.last() == Some(value)
        }),
{
}

/// A setting for an overridden device is answered and kept. The hardware stays
/// as it is, and so does the end of the override.
pub proof fn setting_during_override_is_kept<T: ReadWriteCompat, S>(
    d: OverridableDevice<T, S>,
    value: T,
    responder: S,
    now: Instant,
)
    requires
        d.state is Overridden,
    ensures
        ({
            let (state, step) = d.on_setting(value, responder, now);
            &&& step.ack == Some((responder, value))
            &&& state->Overridden_setting == value
            &&& state->Overridden_overridden == d.state->Overridden_overridden
            &&& state->Overridden_deadline == d.state->Overridden_deadline
        }),
{
}

/// A device that is given a value to start with reports it and hands it to the
/// driver, with nobody to answer.
pub proof fn initial_value_is_asserted<T: ReadWriteCompat, S>(
    d: OverridableDevice<T, S>,
    value: T,
    created: Instant,
    now: Instant,
    written: Option<T>,
)
    requires
        d.state == d.applying_new(value, value, None, created),
    ensures
        fits(d.state, written),
        d.state.last() == Some(value),
        d.on_poll(now).1.action == SettingAction::<T, S>::Report(value),
        d.on_reported(now).1.action == SettingAction::<T, S>::Ready((value, None)),
        d.on_reported(now).0.last() == Some(value),
{
}

} // verus!
