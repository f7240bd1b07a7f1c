//! What holds of each kind of light: the commands that settings become, and what
//! the bridge's updates come to.

use crate::device::{ColorType, Flt};
use crate::driver::classes::class_laws::same_without_result;
use crate::driver::overridable_device::{Action, Event};
use crate::hue::color::{has_brightness, Chroma};
use crate::hue::device_traits::{
    told_brightness, ColorBulbDevice, DeviceWrapper, DimmerDevice, HueDevice, LightEvent,
    LightStep, LightValue, SwitchDevice,
};
use crate::hue::payload::{Brightness, LightCommand, On, ResourceData};
use crate::time::Instant;
use vstd::prelude::*;

verus! {

/// A switch setting becomes the command to turn the light on or off, and its client
/// is told the setting. All else goes as the switch's device has it.
pub proof fn switch_settings_become_commands<S>(
    d: SwitchDevice<S>,
    event: Event<bool, S>,
    now: Instant,
)
    ensures
        ({
            let (state, inner) = d.0.state.on_event(event, now);
            let (next, step) = d.after_event(event, now);
            &&& next.0.state.state == state
            &&& next.0.state.envelope == d.0.state.envelope
            &&& next.0.state.override_duration == d.0.state.override_duration
            &&& next.0.error == d.0.error
            &&& inner.action matches Action::Ready((v, s)) ==> {
                &&& step.action matches Action::Ready(command) && command.on matches Some(on) && on.on
                    == v && command.dimming is None && command.color is None
                &&& s is Some ==> step.ack == Some((s->0, v))
                &&& s is None ==> step.ack is None
            }
            &&& !(inner.action is Ready) ==> same_without_result(inner.action, step.action)
                && step.ack == inner.ack
        }),
{
}

/// What a switch is told goes to its device as a reading. An update that does not
/// say whether the light is on changes nothing.
pub proof fn switch_updates_are_readings<S>(
    d: SwitchDevice<S>,
    on: bool,
    update: ResourceData,
    now: Instant,
)
    ensures
        update.on == Some(On { on }) ==> {
            let (next, ack) = d.after_update(update, now);
            &&& next.0.state.state == d.0.state.after_reading(on, now)
            &&& next.0.state.envelope == d.0.state.envelope
            &&& next.0.state.override_duration == d.0.state.override_duration
            &&& next.0.error == d.0.error
            &&& ack == d.0.state.answered_by_reading(on)
            &&& d.0.state.reports(on) ==> d.due(update) == Some(on)
            &&& !d.0.state.reports(on) ==> d.due(update) is None
        },
        update.on is None ==> d.after_update(update, now) == (d, None::<(S, bool)>) && d.due(
            update,
        ) is None,
{
}

/// A brightness setting is moved into the range of percentages, which is also what
/// its client is told. Zero turns the light off, and any other brightness turns it
/// on with just that. Without more settings, the command leaves everything.
pub proof fn brightness_settings_become_commands<S>(
    d: DimmerDevice<S>,
    event: Event<Flt, S>,
    now: Instant,
)
    ensures
        ({
            let zero = Flt { bits: 0 };
            let hundred = Flt { bits: 0x4059_0000_0000_0000 };
            let (state, inner) = d.dimmer.brightness.on_event(event, now);
            let (next, step) = d.after_event(event, now);
            &&& next.dimmer.brightness.state == state
            &&& next.dimmer.brightness.envelope == d.dimmer.brightness.envelope
            &&& next.dimmer.brightness.override_duration == d.dimmer.brightness.override_duration
            &&& next.dimmer.error == d.dimmer.error
            &&& inner.action matches Action::Ready((v, s)) ==> {
                let given = if v.lt_num(zero) {
                    zero
                } else if hundred.lt_num(v) {
                    hundred
                } else {
                    v
                };
                let off = given.bits == 0 || given.bits == 0x8000_0000_0000_0000;
                &&& step.action matches Action::Ready(command) && {
                    &&& command.on == Some(On { on: !off })
                    &&& off ==> command.dimming is None
                    &&& !off ==> command.dimming == Some(Brightness::Percent(given))
                    &&& command.color is None
                }
                &&& s is Some ==> step.ack == Some((s->0, given))
                &&& s is None ==> step.ack is None
            }
            &&& inner.action is Finished ==> {
                &&& step.action matches Action::Ready(command) && command.on is None
                    && command.dimming is None && command.color is None
                &&& step.ack == inner.ack
            }
            &&& !(inner.action is Ready) && !(inner.action is Finished) ==> same_without_result(
                inner.action,
                step.action,
            ) && step.ack == inner.ack
        }),
{
}

/// The brightness that the bridge tells: none at all for a light that is off, what
/// it says of one that is on or of which it does not say, and a hundred percent for
/// one that is on without a word of brightness.
pub proof fn brightness_that_is_told(update: ResourceData)
    ensures
        update.on == Some(On { on: false }) ==> told_brightness(update) == Some(Flt { bits: 0 }),
        update.on != Some(On { on: false }) ==> (update.dimming matches Some(dimming)
            ==> told_brightness(update) == Some(dimming.percent)),
        update.on == Some(On { on: true }) && update.dimming is None ==> told_brightness(update)
            == Some(Flt { bits: 0x4059_0000_0000_0000 }),
        update.on is None && update.dimming is None ==> told_brightness(update) is None,
{
}

/// What a dimmer is told goes to its device as a reading. An update without anything
/// about the brightness changes nothing.
pub proof fn brightness_updates_are_readings<S>(
    d: DimmerDevice<S>,
    told: Flt,
    update: ResourceData,
    now: Instant,
)
    ensures
        told_brightness(update) == Some(told) ==> {
            let (next, ack) = d.after_update(update, now);
            &&& next.dimmer.brightness.state == d.dimmer.brightness.after_reading(told, now)
            &&& next.dimmer.brightness.envelope == d.dimmer.brightness.envelope
            &&& next.dimmer.brightness.override_duration == d.dimmer.brightness.override_duration
            &&& next.dimmer.error == d.dimmer.error
            &&& ack == d.dimmer.brightness.answered_by_reading(told)
            &&& d.dimmer.brightness.reports(told) ==> d.due(update) == Some(told)
            &&& !d.dimmer.brightness.reports(told) ==> d.due(update) is None
        },
        told_brightness(update) is None ==> d.after_update(update, now) == (d, None::<(S, Flt)>)
            && d.due(update) is None,
{
}

/// Whether a command gives a light this color: its own chromaticity and, unless it
/// is off, its own brightness.
pub open spec fn gives_color(command: LightCommand, color: ColorType) -> bool {
    let brightness = if color is Rgba {
        color->Rgba_color.alpha
    } else {
        color->Ccta_a
    };
    &&& command.on == Some(On { on: brightness != 0 })
    &&& brightness == 0 ==> command.dimming is None
    &&& brightness != 0 ==> command.dimming == Some(Brightness::Alpha(brightness))
    &&& color matches ColorType::Ccta { kelvin, .. } ==> command.color == Some(
        Chroma::Kelvin(kelvin),
    )
    &&& color matches ColorType::Rgba { color: c } ==> command.color matches Some(Chroma::Rgb(rgb))
        && rgb.red == c.red && rgb.green == c.green && rgb.blue == c.blue
}

/// A color setting becomes the command that gives the light that color. Its client
/// is told the color, which is remembered together with the chromaticity that was
/// sent. All other steps leave what is remembered.
pub proof fn color_settings_become_commands<S>(
    d: ColorBulbDevice<S>,
    event: Event<ColorType, S>,
    now: Instant,
)
    ensures
        ({
            let (state, inner) = d.inner.color.on_event(event, now);
            let (next, step) = d.after_event(event, now);
            &&& next.inner.color.state == state
            &&& next.inner.color.envelope == d.inner.color.envelope
            &&& next.inner.color.override_duration == d.inner.color.override_duration
            &&& next.inner.error == d.inner.error
            &&& next.resource_type == d.resource_type
            &&& inner.action matches Action::Ready((v, s)) ==> {
                &&& step.action matches Action::Ready(command) && gives_color(command, v)
                    && next.last_xy == command.color
                &&& next.last_color == v
                &&& s is Some ==> step.ack == Some((s->0, v))
                &&& s is None ==> step.ack is None
            }
            &&& !(inner.action is Ready) ==> {
                &&& same_without_result(inner.action, step.action)
                &&& step.ack == inner.ack
                &&& next.last_color == d.last_color
                &&& next.last_xy == d.last_xy
            }
        }),
{
}

/// An update of a color bulb that tells nothing new changes nothing: it does not say
/// whether the light is on, nor how bright it is, and its coordinates, if it has
/// any, are close to the known ones.
pub proof fn update_without_news_changes_nothing<S>(
    d: ColorBulbDevice<S>,
    update: ResourceData,
    now: Instant,
)
    requires
        update.on is None,
        update.dimming is None,
        update.xy matches Some(xy) ==> xy.near_last && d.last_xy is Some,
    ensures
        d.after_update(update, now) == (d, None::<(S, ColorType)>),
        d.due(update) is None,
{
}

/// Whether an update of a color bulb tells anything new.
pub open spec fn tells_news<S>(d: ColorBulbDevice<S>, update: ResourceData) -> bool {
    update.on is Some || update.dimming is Some || (update.xy is Some && (d.last_xy is None
        || !update.xy->0.near_last))
}

/// The color that an update comes to is remembered and goes to the bulb's device as
/// a reading.
pub proof fn color_updates_are_readings<S>(
    d: ColorBulbDevice<S>,
    update: ResourceData,
    now: Instant,
)
    requires
        tells_news(d, update),
    ensures
        ({
            let (next, ack) = d.after_update(update, now);
            let color = next.last_color;
            &&& next.inner.color.state == d.inner.color.after_reading(color, now)
            &&& next.inner.color.envelope == d.inner.color.envelope
            &&& next.inner.color.override_duration == d.inner.color.override_duration
            &&& next.inner.error == d.inner.error
            &&& next.resource_type == d.resource_type
            &&& ack == d.inner.color.answered_by_reading(color)
            &&& d.inner.color.reports(color) ==> d.due(update) == Some(color)
            &&& !d.inner.color.reports(color) ==> d.due(update) is None
        }),
{
}

/// New coordinates decide the hue, whatever else is told, and are remembered. They
/// are new unless they are close to known ones.
pub proof fn new_coordinates_decide_the_hue<S>(
    d: ColorBulbDevice<S>,
    update: ResourceData,
    now: Instant,
)
    requires
        update.xy matches Some(xy) && (d.last_xy is None || !xy.near_last),
    ensures
        ({
            let xy = update.xy->0;
            let next = d.after_update(update, now).0;
            &&& next.last_color matches ColorType::Rgba { color } && color.red == xy.rgb.red
                && color.green == xy.rgb.green && color.blue == xy.rgb.blue
            &&& next.last_xy == Some(Chroma::Point { x: xy.x, y: xy.y })
        }),
{
}

/// Without new coordinates the known ones stay, and a color keeps its hue. A color
/// temperature stays what it is if its coordinates are echoed; if there are none at
/// all, it becomes white.
pub proof fn hue_stays_without_new_coordinates<S>(
    d: ColorBulbDevice<S>,
    update: ResourceData,
    now: Instant,
)
    requires
        update.on is Some || update.dimming is Some,
        update.xy matches Some(xy) ==> xy.near_last && d.last_xy is Some,
    ensures
        ({
            let next = d.after_update(update, now).0;
            &&& next.last_xy == d.last_xy
            &&& d.last_color matches ColorType::Rgba { color: before } ==> {
                &&& next.last_color matches ColorType::Rgba { color } && color.red == before.red
                    && color.green == before.green && color.blue == before.blue
            }
            &&& d.last_color matches ColorType::Ccta { kelvin: before, .. } ==> {
                &&& update.xy is Some ==> (next.last_color matches ColorType::Ccta { kelvin, .. }
                    && kelvin == before)
                &&& update.xy is None ==> (next.last_color matches ColorType::Rgba { color }
                    && color.red == 255 && color.green == 255 && color.blue == 255)
            }
        }),
{
}

/// The brightness that an update comes to, whatever it says of the coordinates: none
/// for a light that is off, what is told of one that is on, the full brightness for
/// one that was turned on without a word of it, and otherwise what it was.
pub proof fn brightness_after_an_update<S>(
    d: ColorBulbDevice<S>,
    before: u8,
    update: ResourceData,
    now: Instant,
)
    requires
        has_brightness(d.last_color, before),
        tells_news(d, update),
    ensures
        ({
            let color = d.after_update(update, now).0.last_color;
            &&& update.on == Some(On { on: false }) ==> has_brightness(color, 0)
            &&& update.on == Some(On { on: true }) ==> {
                &&& update.dimming matches Some(dimming) ==> has_brightness(color, dimming.alpha)
                &&& update.dimming is None ==> has_brightness(color, 255)
            }
            &&& update.on is None ==> {
                &&& update.dimming matches Some(dimming) ==> has_brightness(
                    color,
                    if before > 0 {
                        dimming.alpha
                    } else {
                        0
                    },
                )
                &&& update.dimming is None ==> has_brightness(color, before)
            }
        }),
{
}

/// A light that is reset knows nothing of the hardware. A color bulb remembers white,
/// turned off, and no coordinates. All else stays.
pub proof fn reset_lights_know_nothing<S>(
    s: SwitchDevice<S>,
    d: DimmerDevice<S>,
    c: ColorBulbDevice<S>,
)
    ensures
        s.forgotten().0.state.state is Unknown,
        s.forgotten().0.state.envelope == s.0.state.envelope,
        s.forgotten().0.state.override_duration == s.0.state.override_duration,
        s.forgotten().0.error == s.0.error,
        d.forgotten().dimmer.brightness.state is Unknown,
        d.forgotten().dimmer.brightness.envelope == d.dimmer.brightness.envelope,
        d.forgotten().dimmer.brightness.override_duration == d.dimmer.brightness.override_duration,
        d.forgotten().dimmer.error == d.dimmer.error,
        c.forgotten().inner.color.state is Unknown,
        c.forgotten().inner.color.envelope == c.inner.color.envelope,
        c.forgotten().inner.color.override_duration == c.inner.color.override_duration,
        c.forgotten().inner.error == c.inner.error,
        c.forgotten().resource_type == c.resource_type,
        c.forgotten().last_xy is None,
        c.forgotten().last_color matches ColorType::Rgba { color } && color.red == 255
            && color.green == 255 && color.blue == 255 && color.alpha == 0,
{
}

/// Switches and dimmers are single lights. A color bulb is what it was made as.
pub proof fn resource_types_of_lights<S>(
    s: SwitchDevice<S>,
    d: DimmerDevice<S>,
    c: ColorBulbDevice<S>,
)
    ensures
        s.resource() == "light"@,
        d.resource() == "light"@,
        c.resource() == c.resource_type@,
        DeviceWrapper::Switch(s).resource() == "light"@,
        DeviceWrapper::Dimmer(d).resource() == "light"@,
        DeviceWrapper::ColorBulb(c).resource() == c.resource_type@,
{
}

/// A light of any kind does what the light in it does.
pub proof fn wrapper_does_what_is_in_it<S>(
    s: SwitchDevice<S>,
    d: DimmerDevice<S>,
    c: ColorBulbDevice<S>,
    update: ResourceData,
    now: Instant,
)
    ensures
        DeviceWrapper::Switch(s).after_update(update, now).0 == DeviceWrapper::Switch(
            s.after_update(update, now).0,
        ),
        DeviceWrapper::Dimmer(d).after_update(update, now).0 == DeviceWrapper::Dimmer(
            d.after_update(update, now).0,
        ),
        DeviceWrapper::ColorBulb(c).after_update(update, now).0 == DeviceWrapper::ColorBulb(
            c.after_update(update, now).0,
        ),
        DeviceWrapper::Switch(s).forgotten() == DeviceWrapper::Switch(s.forgotten()),
        DeviceWrapper::Dimmer(d).forgotten() == DeviceWrapper::Dimmer(d.forgotten()),
        DeviceWrapper::ColorBulb(c).forgotten() == DeviceWrapper::ColorBulb(c.forgotten()),
{
}

/// Whether two optional values are there together, and `wrapped` is what is made of
/// the one that is bare.
pub open spec fn wraps<A>(bare: Option<A>, wrap: spec_fn(A) -> LightValue, wrapped: Option<LightValue>) -> bool {
    &&& bare is Some <==> wrapped is Some
    &&& bare is Some ==> wrapped->0 == wrap(bare->0)
}

/// The same of what is due to the backend for an update.
pub proof fn wrapper_reports_what_is_due<S>(
    s: SwitchDevice<S>,
    d: DimmerDevice<S>,
    c: ColorBulbDevice<S>,
    update: ResourceData,
)
    ensures
        wraps(
            s.due(update),
            |v: bool| LightValue::Switch(v),
            DeviceWrapper::Switch(s).due(update),
        ),
        wraps(
            d.due(update),
            |v: Flt| LightValue::Dimmer(v),
            DeviceWrapper::Dimmer(d).due(update),
        ),
        wraps(
            c.due(update),
            |v: ColorType| LightValue::ColorBulb(v),
            DeviceWrapper::ColorBulb(c).due(update),
        ),
{
}

/// The same of the client that an update answers.
pub proof fn wrapper_answers_the_same_client<S>(
    s: SwitchDevice<S>,
    d: DimmerDevice<S>,
    c: ColorBulbDevice<S>,
    update: ResourceData,
    now: Instant,
)
    ensures
        ({
            let bare = s.after_update(update, now).1;
            let wrapped = DeviceWrapper::Switch(s).after_update(update, now).1;
            &&& bare is Some <==> wrapped is Some
            &&& bare matches Some((client, v)) ==> wrapped == Some((client, LightValue::Switch(v)))
        }),
        ({
            let bare = d.after_update(update, now).1;
            let wrapped = DeviceWrapper::Dimmer(d).after_update(update, now).1;
            &&& bare is Some <==> wrapped is Some
            &&& bare matches Some((client, v)) ==> wrapped == Some((client, LightValue::Dimmer(v)))
        }),
        ({
            let bare = c.after_update(update, now).1;
            let wrapped = DeviceWrapper::ColorBulb(c).after_update(update, now).1;
            &&& bare is Some <==> wrapped is Some
            &&& bare matches Some((client, v)) ==> wrapped == Some(
                (client, LightValue::ColorBulb(v)),
            )
        }),
{
}

/// The same of events. An event for a light of another kind changes nothing.
pub proof fn wrapper_takes_the_events_of_its_kind<S>(
    s: SwitchDevice<S>,
    d: DimmerDevice<S>,
    c: ColorBulbDevice<S>,
    e: Event<bool, S>,
    f: Event<Flt, S>,
    g: Event<ColorType, S>,
    now: Instant,
)
    ensures
        DeviceWrapper::Switch(s).after_event(LightEvent::Switch(e), now) == (
            DeviceWrapper::Switch(s.after_event(e, now).0),
            LightStep::Switch(s.after_event(e, now).1),
        ),
        DeviceWrapper::Dimmer(d).after_event(LightEvent::Dimmer(f), now) == (
            DeviceWrapper::Dimmer(d.after_event(f, now).0),
            LightStep::Dimmer(d.after_event(f, now).1),
        ),
        DeviceWrapper::ColorBulb(c).after_event(LightEvent::ColorBulb(g), now) == (
            DeviceWrapper::ColorBulb(c.after_event(g, now).0),
            LightStep::ColorBulb(c.after_event(g, now).1),
        ),
        DeviceWrapper::Switch(s).after_event(LightEvent::Dimmer(f), now) == (
            DeviceWrapper::Switch(s),
            LightStep::<S>::Mismatch,
        ),
        DeviceWrapper::Switch(s).after_event(LightEvent::ColorBulb(g), now) == (
            DeviceWrapper::Switch(s),
            LightStep::<S>::Mismatch,
        ),
        DeviceWrapper::Dimmer(d).after_event(LightEvent::Switch(e), now) == (
            DeviceWrapper::Dimmer(d),
            LightStep::<S>::Mismatch,
        ),
        DeviceWrapper::Dimmer(d).after_event(LightEvent::ColorBulb(g), now) == (
            DeviceWrapper::Dimmer(d),
            LightStep::<S>::Mismatch,
        ),
        DeviceWrapper::ColorBulb(c).after_event(LightEvent::Switch(e), now) == (
            DeviceWrapper::ColorBulb(c),
            LightStep::<S>::Mismatch,
        ),
        DeviceWrapper::ColorBulb(c).after_event(LightEvent::Dimmer(f), now) == (
            DeviceWrapper::ColorBulb(c),
            LightStep::<S>::Mismatch,
        ),
{
}

/// A light accepts what its device accepts, and an update whenever there is room on
/// the clock for the device's timeouts.
pub proof fn lights_accept_what_their_devices_accept<S>(
    s: SwitchDevice<S>,
    d: DimmerDevice<S>,
    c: ColorBulbDevice<S>,
    e: Event<bool, S>,
    f: Event<Flt, S>,
    g: Event<ColorType, S>,
    update: ResourceData,
    now: Instant,
)
    ensures
        s.accepts(e) == s.0.state.accepts(e),
        d.accepts(f) == d.dimmer.brightness.accepts(f),
        c.accepts(g) == c.inner.color.accepts(g),
        s.step_fits(e, now) == s.0.state.step_fits(e, now),
        d.step_fits(f, now) == d.dimmer.brightness.step_fits(f, now),
        c.step_fits(g, now) == c.inner.color.step_fits(g, now),
        s.0.state.clock_fits(now) ==> s.update_fits(update, now),
        d.dimmer.brightness.clock_fits(now) ==> d.update_fits(update, now),
        c.inner.color.clock_fits(now) ==> c.update_fits(update, now),
{
}

} // verus!
