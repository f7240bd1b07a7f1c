//! What holds of the devices of the driver.

use crate::device::Flt;
use crate::driver::classes::class_laws::{
    is_error_device, is_settable_device, same_without_result, starts_with,
};
use crate::driver::classes::dimmer_type::{dimmed, DimmerProperty};
use crate::driver::overridable_device::{Action, Event, OverrideConfig};
use crate::time::{Duration, Instant};
use crate::tplink::config::{DevCfgType, Params};
use crate::tplink::device::{
    dimmer_with_indicator_devices, override_cfg, timeout_fits, DeviceSet, DimmerWithIndicator,
    Input, Output, Setting,
};
use vstd::prelude::*;

verus! {

/// A dimmer with an indicator hands out exactly what its dimmer hands out for the
/// same event, and answers the same client: so the brightness that the driver gets
/// is the one that the client is told. Once the dimmer has no more settings, the
/// indicator goes on alone.
pub proof fn dimmer_settings_are_those_of_the_dimmer<S>(
    d: DimmerWithIndicator<S>,
    event: Event<Flt, S>,
    now: Instant,
)
    ensures
        ({
            let (state, inner) = d.dimmer.brightness.on_event(event, now);
            let class = dimmed(inner);
            let (next, output) = d.after_input(Input::Dimmer(event), now);
            &&& next.dimmer.brightness.state == state
            &&& next.dimmer.brightness.envelope == d.dimmer.brightness.envelope
            &&& next.dimmer.brightness.override_duration == d.dimmer.brightness.override_duration
            &&& next.dimmer.error == d.dimmer.error
            &&& next.indicator == d.indicator
            &&& class.action is Finished <==> output is DimmerDone
            &&& !(class.action is Finished) ==> {
                &&& output matches Output::Dimmer(step) && {
                    &&& step.ack == class.ack
                    &&& class.action matches Action::Ready(prop) ==> step.action == Action::<
                        Flt,
                        Setting,
                    >::Ready(Setting::Dimmer(prop))
                    &&& !(class.action is Ready) ==> same_without_result(class.action, step.action)
                }
            }
        }),
{
}

/// A brightness that the driver gets is the percentage nearest to the setting, and
/// the client is told the same.
pub proof fn driver_gets_what_the_client_is_told<S>(
    d: DimmerWithIndicator<S>,
    event: Event<Flt, S>,
    now: Instant,
)
    ensures
        d.dimmer.brightness.on_event(event, now).1.action matches Action::Ready((v, s)) ==> {
            let zero = Flt { bits: 0 };
            let hundred = Flt { bits: 0x4059_0000_0000_0000 };
            let given = if v.lt_num(zero) {
                zero
            } else if hundred.lt_num(v) {
                hundred
            } else {
                v
            };
            &&& d.after_input(Input::Dimmer(event), now).1 matches Output::Dimmer(step) && {
                &&& step.action matches Action::Ready(Setting::Dimmer(prop)) && prop.brightness
                    == given
                &&& s is Some ==> step.ack == Some((s->0, given))
                &&& s is None ==> step.ack is None
            }
        },
{
}

/// An indicator setting is handed out as it is, and its client is told so. All else
/// goes as the indicator's device has it; once that has no more settings, neither
/// has the whole.
pub proof fn indicator_settings_are_handed_out<S>(
    d: DimmerWithIndicator<S>,
    event: Event<bool, S>,
    now: Instant,
)
    ensures
        ({
            let (state, inner) = d.indicator.on_event(event, now);
            let (next, output) = d.after_input(Input::Indicator(event), now);
            &&& next.indicator.state == state
            &&& next.indicator.envelope == d.indicator.envelope
            &&& next.indicator.override_duration == d.indicator.override_duration
            &&& next.dimmer == d.dimmer
            &&& output matches Output::Indicator(step) && {
                &&& inner.action matches Action::Ready((v, s)) ==> {
                    &&& step.action == Action::<bool, Setting>::Ready(Setting::Indicator(v))
                    &&& s is Some ==> step.ack == Some((s->0, v))
                    &&& s is None ==> step.ack is None
                }
                &&& !(inner.action is Ready) ==> same_without_result(inner.action, step.action)
                    && step.ack == inner.ack
            }
        }),
{
}

/// A reading goes to the dimmer. The indicator stays as it is.
pub proof fn readings_go_to_the_dimmer<S>(
    d: DimmerWithIndicator<S>,
    prop: DimmerProperty,
    now: Instant,
)
    ensures
        ({
            let (next, ack) = d.after_update(prop, now);
            &&& next.dimmer.brightness.state == d.dimmer.brightness.after_reading(
                prop.brightness,
                now,
            )
            &&& next.dimmer.brightness.envelope == d.dimmer.brightness.envelope
            &&& next.dimmer.brightness.override_duration == d.dimmer.brightness.override_duration
            &&& next.dimmer.error == d.dimmer.error
            &&& next.indicator == d.indicator
            &&& ack == d.dimmer.brightness.answered_by_reading(prop.brightness)
        }),
{
}

/// Either part accepts what its device accepts.
pub proof fn parts_accept_what_their_devices_accept<S>(
    d: DimmerWithIndicator<S>,
    e: Event<Flt, S>,
    f: Event<bool, S>,
    now: Instant,
)
    ensures
        d.accepts(Input::Dimmer(e), now) <==> d.dimmer.brightness.accepts(e)
            && d.dimmer.brightness.step_fits(e, now),
        d.accepts(Input::Indicator(f), now) <==> d.indicator.accepts(f) && d.indicator.step_fits(
            f,
            now,
        ),
{
}

/// The configured number is in minutes, and the envelope is five seconds, both in
/// nanoseconds. Without a number, overrides have no end.
pub proof fn timeouts_follow_the_configuration(cfg: Params)
    requires
        timeout_fits(cfg),
    ensures
        cfg.override_timeout matches Some(minutes) ==> override_cfg(cfg).override_duration
            is Some && override_cfg(cfg).override_duration->0 == minutes * 60_000_000_000,
        cfg.override_timeout is None ==> override_cfg(cfg).override_duration is None,
        override_cfg(cfg).envelope == Some(5_000_000_000u128),
{
}

/// Every timeout is accepted whose number of seconds is one.
pub proof fn timeouts_that_fit(cfg: Params)
    ensures
        cfg.override_timeout is None ==> timeout_fits(cfg),
        cfg.override_timeout matches Some(minutes) ==> (timeout_fits(cfg) <==> minutes * 60
            <= u64::MAX),
{
}

/// A dimmer asks for the error device, the brightness and the indicator, in this
/// order.
pub proof fn dimmer_asks_for_three_devices(
    subpath: Option<Seq<char>>,
    override_duration: Option<Duration>,
    envelope: Option<Duration>,
    max_history: Option<usize>,
)
    ensures
        ({
            let cfg = OverrideConfig { override_duration, envelope };
            let list = dimmer_with_indicator_devices(subpath, cfg, max_history);
            &&& list.len() == 3
            &&& is_error_device(list[0], subpath, max_history)
            &&& is_settable_device(
                list[1],
                "brightness"@,
                Some("%"@),
                subpath,
                override_duration,
                envelope,
                max_history,
            )
            &&& is_settable_device(
                list[2],
                "indicator"@,
                None,
                subpath,
                override_duration,
                envelope,
                max_history,
            )
        }),
{
}

/// The kind of hardware decides the devices that are asked for: a dimmer's, or
/// those of a switch for a switch and for an outlet. The configuration decides
/// their timeouts.
pub proof fn kind_decides_the_devices<S>(
    subpath: Option<Seq<char>>,
    cfg: Params,
    max_history: Option<usize>,
)
    ensures
        ({
            let timeouts = override_cfg(cfg);
            let list = DeviceSet::<S>::devices(subpath, cfg, max_history);
            &&& is_error_device(list[0], subpath, max_history)
            &&& cfg.dev_type == DevCfgType::Dimmer ==> {
                &&& list.len() == 3
                &&& is_settable_device(
                    list[1],
                    "brightness"@,
                    Some("%"@),
                    subpath,
                    timeouts.override_duration,
                    timeouts.envelope,
                    max_history,
                )
                &&& is_settable_device(
                    list[2],
                    "indicator"@,
                    None,
                    subpath,
                    timeouts.override_duration,
                    timeouts.envelope,
                    max_history,
                )
            }
            &&& cfg.dev_type != DevCfgType::Dimmer ==> {
                &&& list.len() == 2
                &&& is_settable_device(
                    list[1],
                    "state"@,
                    None,
                    subpath,
                    timeouts.override_duration,
                    timeouts.envelope,
                    max_history,
                )
            }
        }),
{
}

/// The kind of hardware decides what an instance consists of. Each part starts with
/// what the backend remembers of it, and with the configured timeouts.
pub proof fn kind_decides_the_parts<S>(
    cfg: Params,
    on: Option<bool>,
    level: Option<Flt>,
    indicator: Option<bool>,
    now: Instant,
)
    requires
        timeout_fits(cfg),
        now + 5_000_000_000 <= Instant::MAX,
    ensures
        ({
            let timeouts = override_cfg(cfg);
            let set = DeviceSet::<S>::fresh(cfg, on, level, indicator, now);
            &&& set is Dimmer <==> cfg.dev_type == DevCfgType::Dimmer
            &&& set matches DeviceSet::Switch(dev) ==> {
                &&& dev.error.last is None
                &&& dev.state.override_duration == timeouts.override_duration
                &&& starts_with(dev.state.state, dev.state.envelope, on, timeouts.envelope, now)
            }
            &&& set matches DeviceSet::Dimmer(dev) ==> {
                &&& dev.dimmer.error.last is None
                &&& dev.dimmer.brightness.override_duration == timeouts.override_duration
                &&& starts_with(
                    dev.dimmer.brightness.state,
                    dev.dimmer.brightness.envelope,
                    level,
                    timeouts.envelope,
                    now,
                )
                &&& dev.indicator.override_duration == timeouts.override_duration
                &&& starts_with(
                    dev.indicator.state,
                    dev.indicator.envelope,
                    indicator,
                    timeouts.envelope,
                    now,
                )
            }
        }),
{
}

/// A dimmer and its indicator start with what the backend remembers of each.
pub proof fn dimmer_starts_with_what_is_remembered<S>(
    cfg: OverrideConfig,
    level: Option<Flt>,
    indicator: Option<bool>,
    now: Instant,
)
    requires
        cfg.envelope matches Some(e) ==> now + e <= Instant::MAX,
    ensures
        ({
            let dev = DimmerWithIndicator::<S>::fresh(cfg, level, indicator, now);
            &&& dev.dimmer.error.last is None
            &&& dev.dimmer.brightness.override_duration == cfg.override_duration
            &&& starts_with(
                dev.dimmer.brightness.state,
                dev.dimmer.brightness.envelope,
                level,
                cfg.envelope,
                now,
            )
            &&& dev.indicator.override_duration == cfg.override_duration
            &&& starts_with(
                dev.indicator.state,
                dev.indicator.envelope,
                indicator,
                cfg.envelope,
                now,
            )
        }),
{
}

/// A reset makes every part forget what is known of the hardware, and nothing else.
pub proof fn reset_parts_know_nothing<S>(set: DeviceSet<S>)
    ensures
        set matches DeviceSet::Switch(dev) ==> {
            &&& set.forgotten() matches DeviceSet::Switch(next) && {
                &&& next.state.state is Unknown
                &&& next.state.envelope == dev.state.envelope
                &&& next.state.override_duration == dev.state.override_duration
                &&& next.error == dev.error
            }
        },
        set matches DeviceSet::Dimmer(dev) ==> {
            &&& set.forgotten() matches DeviceSet::Dimmer(next) && {
                &&& next == dev.forgotten()
                &&& next.dimmer.brightness.state is Unknown
                &&& next.dimmer.brightness.envelope == dev.dimmer.brightness.envelope
                &&& next.dimmer.brightness.override_duration
                    == dev.dimmer.brightness.override_duration
                &&& next.dimmer.error == dev.dimmer.error
                &&& next.indicator.state is Unknown
                &&& next.indicator.envelope == dev.indicator.envelope
                &&& next.indicator.override_duration == dev.indicator.override_duration
            }
        },
{
}

} // verus!
