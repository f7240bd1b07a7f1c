//! What holds of all classes of hardware, and of each.

use crate::device::{ColorType, Flt};
use crate::driver::classes::colorbulb_type::{colorbulb_devices, ColorBulb};
use crate::driver::classes::dimmer_type::{dimmed, dimmer_devices, Dimmer};
use crate::driver::classes::switch_type::{switch_devices, switched, Switch};
use crate::driver::classes::{carried, settle};
use crate::driver::overridable_device::{Action, OverrideConfig, SettingStep, State};
use crate::driver::{chars, views, Channel, Registration, RegistrationView};
use crate::time::{Duration, Instant};
use vstd::prelude::*;

verus! {

/// What a list of devices is held against leaves nothing out: each device is there,
/// at its place, with all that it asks for.
pub proof fn registrations_are_seen_in_full(list: Seq<Registration<'_>>, i: int)
    requires
        0 <= i < list.len(),
    ensures
        views(list).len() == list.len(),
        views(list)[i].name == list[i].name@,
        list[i].subpath matches Some(s) ==> views(list)[i].subpath == Some(s@),
        list[i].subpath is None ==> views(list)[i].subpath is None,
        list[i].units matches Some(s) ==> views(list)[i].units == Some(s@),
        list[i].units is None ==> views(list)[i].units is None,
        views(list)[i].channel == list[i].channel,
        views(list)[i].max_history == list[i].max_history,
{
}

/// The characters of a string that may not be there.
pub proof fn characters_of_a_string(s: &str)
    ensures
        chars(Some(s)) == Some(s@),
        chars(None) is None,
{
}

/// Whether this is the error device: read-only and without units.
pub open spec fn is_error_device(
    dev: RegistrationView,
    subpath: Option<Seq<char>>,
    max_history: Option<usize>,
) -> bool {
    &&& dev.name == "error"@
    &&& dev.units is None
    &&& dev.channel is ReadOnly
    &&& dev.subpath == subpath
    &&& dev.max_history == max_history
}

/// Whether this is a settable device with these timeouts.
pub open spec fn is_settable_device(
    dev: RegistrationView,
    name: Seq<char>,
    units: Option<Seq<char>>,
    subpath: Option<Seq<char>>,
    override_duration: Option<Duration>,
    envelope: Option<Duration>,
    max_history: Option<usize>,
) -> bool {
    &&& dev.name == name
    &&& dev.units == units
    &&& dev.channel matches Channel::Overridable { override_duration: o, envelope: e } && o
        == override_duration && e == envelope
    &&& dev.subpath == subpath
    &&& dev.max_history == max_history
}

/// Every class asks for the error device and for one settable device, in this order,
/// both under the given path, with the given timeouts and the given history.
pub proof fn classes_ask_for_two_devices(
    subpath: Option<Seq<char>>,
    override_duration: Option<Duration>,
    envelope: Option<Duration>,
    max_history: Option<usize>,
)
    ensures
        ({
            let cfg = OverrideConfig { override_duration, envelope };
            let switch = switch_devices(subpath, cfg, max_history);
            let dimmer = dimmer_devices(subpath, cfg, max_history);
            let bulb = colorbulb_devices(subpath, cfg, max_history);
            &&& switch.len() == 2 && dimmer.len() == 2 && bulb.len() == 2
            &&& is_error_device(switch[0], subpath, max_history)
            &&& is_error_device(dimmer[0], subpath, max_history)
            &&& is_error_device(bulb[0], subpath, max_history)
            &&& is_settable_device(
                switch[1],
                "state"@,
                None,
                subpath,
                override_duration,
                envelope,
                max_history,
            )
            &&& is_settable_device(
                dimmer[1],
                "brightness"@,
                Some("%"@),
                subpath,
                override_duration,
                envelope,
                max_history,
            )
            &&& is_settable_device(
                bulb[1],
                "color"@,
                None,
                subpath,
                override_duration,
                envelope,
                max_history,
            )
        }),
{
}

/// Whether a device starts out with a value that the backend remembers, if there is
/// one, and with the given timeouts.
pub open spec fn starts_with<T, S>(
    state: State<T, S>,
    envelope: Duration,
    last: Option<T>,
    given: Option<Duration>,
    now: Instant,
) -> bool {
    &&& given matches Some(e) ==> envelope == e
    &&& given is None ==> envelope == 0
    &&& match last {
        Some(v) => {
            &&& state is ApplyingTrans
            &&& state->ApplyingTrans_setting == v
            &&& state->ApplyingTrans_last_seen == v
            &&& state->ApplyingTrans_deadline == now + envelope
            &&& state->ApplyingTrans_responder is None
            &&& state->ApplyingTrans_needs_report
        },
        None => state is Unknown,
    }
}

/// A class starts out without an error report and with the value that the backend
/// remembers, which is to be applied.
pub proof fn classes_start_with_what_is_remembered<S>(
    cfg: OverrideConfig,
    on: Option<bool>,
    level: Option<Flt>,
    color: Option<ColorType>,
    now: Instant,
)
    requires
        cfg.envelope matches Some(e) ==> now + e <= Instant::MAX,
    ensures
        ({
            let switch = Switch::<S>::fresh(cfg, on, now);
            let dimmer = Dimmer::<S>::fresh(cfg, level, now);
            let bulb = ColorBulb::<S>::fresh(cfg, color, now);
            &&& switch.error.last is None && dimmer.error.last is None && bulb.error.last is None
            &&& starts_with(switch.state.state, switch.state.envelope, on, cfg.envelope, now)
            &&& starts_with(
                dimmer.brightness.state,
                dimmer.brightness.envelope,
                level,
                cfg.envelope,
                now,
            )
            &&& starts_with(bulb.color.state, bulb.color.envelope, color, cfg.envelope, now)
            &&& switch.state.override_duration == cfg.override_duration
            &&& dimmer.brightness.override_duration == cfg.override_duration
            &&& bulb.color.override_duration == cfg.override_duration
        }),
{
}

/// Whether two actions, of whatever results, are the same one and give no result.
pub open spec fn same_without_result<T, O, P>(a: Action<T, O>, b: Action<T, P>) -> bool {
    match (a, b) {
        (Action::Report(v), Action::Report(w)) => v == w,
        (Action::ReportAt(v, at), Action::ReportAt(w, then)) => v == w && at == then,
        (Action::Wait(d), Action::Wait(e)) => d == e,
        (Action::Again, Action::Again) => true,
        (Action::Finished, Action::Finished) => true,
        _ => false,
    }
}

/// An action that gives no result is passed on as it is.
pub proof fn actions_are_passed_on<T, O, P>(action: Action<T, O>)
    requires
        !(action is Ready),
    ensures
        same_without_result(action, carried::<T, O, P>(action)),
{
}

/// A step that gives a setting becomes one that gives what is made of it, and its
/// client is answered with what is applied. Any other step stays as it is.
pub proof fn settings_are_made_into_results<T, S, O>(
    step: SettingStep<T, S>,
    applied: spec_fn(T) -> T,
    result: spec_fn(T) -> O,
)
    ensures
        step.action matches Action::Ready((v, Some(s))) ==> {
            &&& settle(step, applied, result).action == Action::<T, O>::Ready(result(v))
            &&& settle(step, applied, result).ack == Some((s, applied(v)))
        },
        step.action matches Action::Ready((v, None)) ==> {
            &&& settle(step, applied, result).action == Action::<T, O>::Ready(result(v))
            &&& settle(step, applied, result).ack is None
        },
        !(step.action is Ready) ==> {
            &&& same_without_result(step.action, settle(step, applied, result).action)
            &&& settle(step, applied, result).ack == step.ack
        },
{
}

/// A switch hands out exactly what was set, and tells the client so.
pub proof fn switch_hands_out_what_was_set<S>(step: SettingStep<bool, S>)
    ensures
        step.action matches Action::Ready((v, s)) ==> {
            &&& switched(step).action matches Action::Ready(prop) && prop.state == v
            &&& s is Some ==> switched(step).ack == Some((s->0, v))
            &&& s is None ==> switched(step).ack is None
        },
        !(step.action is Ready) ==> {
            &&& same_without_result(step.action, switched(step).action)
            &&& switched(step).ack == step.ack
        },
{
}

/// A dimmer hands out the percentage that is nearest to what was set, and tells the
/// client of that.
pub proof fn dimmer_hands_out_the_nearest_percentage<S>(step: SettingStep<Flt, S>)
    ensures
        step.action matches Action::Ready((v, s)) ==> {
            let zero = Flt { bits: 0 };
            let hundred = Flt { bits: 0x4059_0000_0000_0000 };
            let given = dimmed(step).action->Ready_0.brightness;
            &&& dimmed(step).action is Ready
            &&& v.lt_num(zero) ==> given == zero
            &&& hundred.lt_num(v) ==> given == hundred
            &&& !v.lt_num(zero) && !hundred.lt_num(v) ==> given == v
            &&& s is Some ==> dimmed(step).ack == Some((s->0, given))
            &&& s is None ==> dimmed(step).ack is None
        },
        !(step.action is Ready) ==> {
            &&& same_without_result(step.action, dimmed(step).action)
            &&& dimmed(step).ack == step.ack
        },
{
}

} // verus!
