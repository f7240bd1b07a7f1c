//! The kinds of lights that a Hue bridge has.

use crate::device::{ColorType, Flt, Rgb, Rgba};
use crate::driver::classes::colorbulb_type::ColorBulb;
use crate::driver::classes::dimmer_type::{dimmer_devices, Dimmer, DimmerProperty};
use crate::driver::classes::switch_type::{Switch, SwitchProperty};
use crate::driver::classes::settle;
use crate::driver::overridable_device::{Action, Event, OverrideConfig, State, Step};
use crate::driver::{chars, views, Registration};
use crate::hue::color::{
    alpha, bridge_state, color_to_bridge, merge_bridge_update, merged, merged_alpha, Chroma,
};
use crate::hue::payload::{Brightness, LightCommand, On, ResourceData, XyReading};
use crate::time::Instant;
use vstd::prelude::*;

verus! {

/// The resource type of a single light.
pub const LIGHT_RESOURCE: &'static str = "light";

/// The resource type of a group of lights.
pub const GROUPED_LIGHT_RESOURCE: &'static str = "grouped_light";

/// What all kinds of lights have in common. `S` answers the clients.
pub trait HueDevice<S>: Sized {
    /// The type of the light's settings.
    type Val;

    /// The resource type of the light.
    spec fn resource(self) -> Seq<char>;

    /// Whether `event` can happen to the light in its state.
    spec fn accepts(self, event: Event<Self::Val, S>) -> bool;

    /// Whether the clock can show the end of the period that `event` starts.
    spec fn step_fits(self, event: Event<Self::Val, S>, now: Instant) -> bool;

    /// Whether the clock can show the end of the period that `update` starts.
    spec fn update_fits(self, update: ResourceData, now: Instant) -> bool;

    /// The light after an event, and the step that follows.
    spec fn after_event(self, event: Event<Self::Val, S>, now: Instant) -> (
        Self,
        Step<Self::Val, S, LightCommand>,
    );

    /// What is due to the backend for an update.
    spec fn due(self, update: ResourceData) -> Option<Self::Val>;

    /// The light after an update, and the client to be answered.
    spec fn after_update(self, update: ResourceData, now: Instant) -> (
        Self,
        Option<(S, Self::Val)>,
    );

    /// The light of which nothing is known.
    spec fn forgotten(self) -> Self;

    /// The resource type of the light: "light" or "grouped_light".
    fn resource_type(&self) -> (r: &'static str)
        ensures
            r@ == self.resource(),
    ;

    /// Takes one step towards the next command for the bridge.
    fn next_setting(&mut self, event: Event<Self::Val, S>, now: Instant) -> (step: Step<
        Self::Val,
        S,
        LightCommand,
    >)
        requires
            old(self).accepts(event),
            old(self).step_fits(event, now),
        ensures
            (*final(self), step) == old(self).after_event(event, now),
    ;

    /// The value to be written to the backend before `apply_update`.
    fn report_due(&self, update: &ResourceData) -> (r: Option<Self::Val>)
        ensures
            r == self.due(*update),
    ;

    /// Takes note of what the bridge says of the light. Returns the client to be
    /// answered.
    fn apply_update(&mut self, update: &ResourceData, now: Instant) -> (ack: Option<(S, Self::Val)>)
        requires
            old(self).update_fits(*update, now),
        ensures
            (*final(self), ack) == old(self).after_update(*update, now),
    ;

    /// Forgets all that is known of the light. Called when the driver restarts.
    fn reset(&mut self)
        ensures
            *final(self) == old(self).forgotten(),
    ;
}

/// The command that turns a light on or off and leaves all else.
pub open spec fn switch_command(on: bool) -> LightCommand {
    LightCommand { on: Some(On { on }), dimming: None, color: None }
}

/// The command that leaves everything as it is.
pub open spec fn empty_command() -> LightCommand {
    LightCommand { on: None, dimming: None, color: None }
}

/// A light that can be turned on and off.
#[derive(Debug)]
pub struct SwitchDevice<S>(pub Switch<S>);

impl<S> SwitchDevice<S> {
    /// The light whose switch has another state.
    pub open spec fn with(self, state: State<bool, S>) -> Self {
        SwitchDevice(Switch { state: self.0.state.with(state), ..self.0 })
    }
}

impl<S> HueDevice<S> for SwitchDevice<S> {
    type Val = bool;

    open spec fn resource(self) -> Seq<char> {
        "light"@
    }

    open spec fn accepts(self, event: Event<bool, S>) -> bool {
        self.0.state.accepts(event)
    }

    open spec fn step_fits(self, event: Event<bool, S>, now: Instant) -> bool {
        self.0.state.step_fits(event, now)
    }

    open spec fn update_fits(self, update: ResourceData, now: Instant) -> bool {
        update.on is Some ==> self.0.state.clock_fits(now)
    }

    open spec fn after_event(self, event: Event<bool, S>, now: Instant) -> (
        Self,
        Step<bool, S, LightCommand>,
    ) {
        let (state, inner) = self.0.state.on_event(event, now);
        (self.with(state), settle(inner, |v: bool| v, |v: bool| switch_command(v)))
    }

    open spec fn due(self, update: ResourceData) -> Option<bool> {
        match update.on {
            Some(on) => if self.0.state.reports(on.on) {
                Some(on.on)
            } else {
                None
            },
            None => None,
        }
    }

    open spec fn after_update(self, update: ResourceData, now: Instant) -> (
        Self,
        Option<(S, bool)>,
    ) {
        match update.on {
            Some(on) => (
                self.with(self.0.state.after_reading(on.on, now)),
                self.0.state.answered_by_reading(on.on),
            ),
            None => (self, None),
        }
    }

    open spec fn forgotten(self) -> Self {
        self.with(State::Unknown)
    }

    fn resource_type(&self) -> (r: &'static str) {
        LIGHT_RESOURCE
    }

    fn next_setting(&mut self, event: Event<bool, S>, now: Instant) -> (step: Step<
        bool,
        S,
        LightCommand,
    >) {
        let inner = self.0.next_setting(event, now);
        match inner.action.into_result() {
            Ok(val) => Step {
                ack: inner.ack,
                action: Action::Ready(
                    LightCommand { on: Some(On { on: val.state }), dimming: None, color: None },
                ),
            },
            Err(action) => Step { ack: inner.ack, action },
        }
    }

    fn report_due(&self, update: &ResourceData) -> (r: Option<bool>) {
        match update.on {
            Some(on) => self.0.report_due(&SwitchProperty { state: on.on }),
            None => None,
        }
    }

    fn apply_update(&mut self, update: &ResourceData, now: Instant) -> (ack: Option<(S, bool)>) {
        match update.on {
            Some(on) => self.0.report_update(SwitchProperty { state: on.on }, now),
            None => None,
        }
    }

    fn reset(&mut self) {
        self.0.reset_state();
    }
}

/// A light that can be dimmed.
#[derive(Debug)]
pub struct DimmerDevice<S> {
    pub dimmer: Dimmer<S>,
}

/// The command that gives a light a brightness. At 0.0 the light is off.
pub open spec fn dimmer_command(brightness: Flt) -> LightCommand {
    if brightness.eq_num(Flt { bits: 0 }) {
        switch_command(false)
    } else {
        LightCommand {
            on: Some(On { on: true }),
            dimming: Some(Brightness::Percent(brightness)),
            color: None,
        }
    }
}

/// The brightness that the bridge tells. A light that is off has none, and one
/// that is on has full brightness unless something else is told.
pub open spec fn told_brightness(update: ResourceData) -> Option<Flt> {
    match (update.on, update.dimming) {
        (Some(On { on: false }), _) => Some(Flt { bits: 0 }),
        (Some(On { on: true }), None) => Some(Flt { bits: crate::device::HUNDRED_BITS }),
        (_, Some(dimming)) => Some(dimming.percent),
        (None, None) => None,
    }
}

impl<S> DimmerDevice<S> {
    /// The light whose dimmer has another state.
    pub open spec fn with(self, state: State<Flt, S>) -> Self {
        DimmerDevice {
            dimmer: Dimmer { brightness: self.dimmer.brightness.with(state), ..self.dimmer },
        }
    }

    /// The devices to be registered, in this order; `next_registration` goes
    /// through them.
    pub fn register_devices<'a>(
        subpath: Option<&'a str>,
        cfg: &OverrideConfig,
        max_history: Option<usize>,
    ) -> (r: Vec<Registration<'a>>)
        ensures
            views(r@) == dimmer_devices(chars(subpath), *cfg, max_history),
    {
        Dimmer::<S>::register_devices(subpath, cfg, max_history)
    }

    fn brightness_of(update: &ResourceData) -> (r: Option<Flt>)
        ensures
            r == told_brightness(*update),
    {
        match (update.on, update.dimming) {
            (Some(On { on: false }), _) => Some(Flt::zero()),
            (Some(On { on: true }), None) => Some(Flt::hundred()),
            (_, Some(dimming)) => Some(dimming.percent),
            (None, None) => None,
        }
    }
}

impl<S> HueDevice<S> for DimmerDevice<S> {
    type Val = Flt;

    open spec fn resource(self) -> Seq<char> {
        "light"@
    }

    open spec fn accepts(self, event: Event<Flt, S>) -> bool {
        self.dimmer.brightness.accepts(event)
    }

    open spec fn step_fits(self, event: Event<Flt, S>, now: Instant) -> bool {
        self.dimmer.brightness.step_fits(event, now)
    }

    open spec fn update_fits(self, update: ResourceData, now: Instant) -> bool {
        told_brightness(update) is Some ==> self.dimmer.brightness.clock_fits(now)
    }

    /// Once there are no more settings, the command is the empty one.
    open spec fn after_event(self, event: Event<Flt, S>, now: Instant) -> (
        Self,
        Step<Flt, S, LightCommand>,
    ) {
        let (state, inner) = self.dimmer.brightness.on_event(event, now);
        let step = match inner.action {
            Action::Finished => Step { ack: inner.ack, action: Action::Ready(empty_command()) },
            _ => settle(inner, |v: Flt| v.clamped(), |v: Flt| dimmer_command(v.clamped())),
        };
        (self.with(state), step)
    }

    open spec fn due(self, update: ResourceData) -> Option<Flt> {
        match told_brightness(update) {
            Some(brightness) => if self.dimmer.brightness.reports(brightness) {
                Some(brightness)
            } else {
                None
            },
            None => None,
        }
    }

    open spec fn after_update(self, update: ResourceData, now: Instant) -> (
        Self,
        Option<(S, Flt)>,
    ) {
        match told_brightness(update) {
            Some(brightness) => (
                self.with(self.dimmer.brightness.after_reading(brightness, now)),
                self.dimmer.brightness.answered_by_reading(brightness),
            ),
            None => (self, None),
        }
    }

    open spec fn forgotten(self) -> Self {
        self.with(State::Unknown)
    }

    fn resource_type(&self) -> (r: &'static str) {
        LIGHT_RESOURCE
    }

    fn next_setting(&mut self, event: Event<Flt, S>, now: Instant) -> (step: Step<
        Flt,
        S,
        LightCommand,
    >) {
        let inner = self.dimmer.next_setting(event, now);
        match inner.action.into_result() {
            Ok(prop) => {
                let zero = Flt::zero();
                let cmd = if prop.brightness.equals(&zero) {
                    LightCommand { on: Some(On { on: false }), dimming: None, color: None }
                } else {
                    LightCommand {
                        on: Some(On { on: true }),
                        dimming: Some(Brightness::Percent(prop.brightness)),
                        color: None,
                    }
                };
                Step { ack: inner.ack, action: Action::Ready(cmd) }
            },
            Err(Action::Finished) => Step {
                ack: inner.ack,
                action: Action::Ready(LightCommand { on: None, dimming: None, color: None }),
            },
            Err(action) => Step { ack: inner.ack, action },
        }
    }

    fn report_due(&self, update: &ResourceData) -> (r: Option<Flt>) {
        match Self::brightness_of(update) {
            Some(brightness) => self.dimmer.report_due(&DimmerProperty { brightness }),
            None => None,
        }
    }

    fn apply_update(&mut self, update: &ResourceData, now: Instant) -> (ack: Option<(S, Flt)>) {
        match Self::brightness_of(update) {
            Some(brightness) => self.dimmer.report_update(DimmerProperty { brightness }, now),
            None => None,
        }
    }

    fn reset(&mut self) {
        self.dimmer.reset_state();
    }
}

/// A light, or a group of lights, whose color can be set.
#[derive(Debug)]
pub struct ColorBulbDevice<S> {
    pub inner: ColorBulb<S>,
    pub resource_type: &'static str,
    /// The chromaticity that the bridge was sent or has told last. What the
    /// bridge tells is held against it, so that the round-off errors of
    /// conversions do not count as changes.
    pub last_xy: Option<Chroma>,
    /// The last color of the light, which stands in for what an update does not
    /// tell: on, dimming and color can each arrive independently.
    pub last_color: ColorType,
}

/// The color of a light of which nothing is known: white, and off.
pub open spec fn unlit_white() -> ColorType {
    ColorType::Rgba { color: Rgba { red: 255, green: 255, blue: 255, alpha: 0 } }
}

/// The command that gives a light a color. A light that is off gets no
/// brightness.
pub open spec fn color_command(color: ColorType) -> LightCommand {
    let bridge = bridge_state(color);
    LightCommand {
        on: Some(On { on: bridge.on }),
        dimming: if bridge.on {
            Some(Brightness::Alpha(bridge.brightness))
        } else {
            None
        },
        color: Some(bridge.xy),
    }
}

/// The reading of the coordinates in an update, if it is news: if it does not
/// just echo the chromaticity that is known already.
pub open spec fn news_xy(last_xy: Option<Chroma>, update: ResourceData) -> Option<XyReading> {
    match update.xy {
        Some(xy) => if last_xy is Some && xy.near_last {
            None
        } else {
            Some(xy)
        },
        None => None,
    }
}

impl<S> ColorBulbDevice<S> {
    /// The light whose color device has another state.
    pub open spec fn with(self, state: State<ColorType, S>) -> Self {
        ColorBulbDevice {
            inner: ColorBulb { color: self.inner.color.with(state), ..self.inner },
            ..self
        }
    }

    /// Whether an update tells anything.
    pub open spec fn has_news(self, update: ResourceData) -> bool {
        update.on is Some || update.dimming is Some || news_xy(self.last_xy, update) is Some
    }

    /// The chromaticity that is known after an update.
    pub open spec fn updated_xy(self, update: ResourceData) -> Option<Chroma> {
        match news_xy(self.last_xy, update) {
            Some(xy) => Some(Chroma::Point { x: xy.x, y: xy.y }),
            None => self.last_xy,
        }
    }

    /// Whether an update tells the coordinates that are known already.
    pub open spec fn echoes_xy(self, update: ResourceData) -> bool {
        update.xy is Some && news_xy(self.last_xy, update) is None
    }

    /// The color that the light has after an update. A color temperature stays
    /// one where the bridge echoes its coordinates.
    pub open spec fn updated_color(self, update: ResourceData) -> ColorType {
        let on = match update.on {
            Some(on) => Some(on.on),
            None => None,
        };
        let brightness = match update.dimming {
            Some(dimming) => Some(dimming.alpha),
            None => None,
        };
        let rgb = match news_xy(self.last_xy, update) {
            Some(xy) => Some(xy.rgb),
            None => None,
        };
        match self.last_color {
            ColorType::Ccta { kelvin, a } if self.echoes_xy(update) => ColorType::Ccta {
                kelvin,
                a: merged_alpha(a, on, brightness),
            },
            prev => merged(prev, on, brightness, rgb),
        }
    }

    /// A light or a group of lights of which nothing is known yet.
    pub fn new(inner: ColorBulb<S>, is_group: bool) -> (r: Self)
        ensures
            r.inner == inner,
            r.resource_type@ == if is_group {
                "grouped_light"@
            } else {
                "light"@
            },
            r.last_xy is None,
            r.last_color == unlit_white(),
    {
        ColorBulbDevice {
            inner,
            resource_type: if is_group {
                GROUPED_LIGHT_RESOURCE
            } else {
                LIGHT_RESOURCE
            },
            last_xy: None,
            last_color: ColorType::Rgba {
                color: Rgba { red: 255, green: 255, blue: 255, alpha: 0 },
            },
        }
    }

    fn color_after(&self, update: &ResourceData) -> (r: Option<(ColorType, Option<Chroma>)>)
        ensures
            r == if self.has_news(*update) {
                Some((self.updated_color(*update), self.updated_xy(*update)))
            } else {
                None
            },
    {
        let on: Option<bool> = match update.on {
            Some(on) => Some(on.on),
            None => None,
        };
        let brightness: Option<u8> = match update.dimming {
            Some(dimming) => Some(dimming.alpha),
            None => None,
        };
        // Coordinates that just echo what was last sent are no news.
        let xy: Option<XyReading> = match update.xy {
            Some(xy) => if self.last_xy.is_some() && xy.near_last {
                None
            } else {
                Some(xy)
            },
            None => None,
        };
        if on.is_none() && brightness.is_none() && xy.is_none() {
            return None;
        }
        let (rgb, last_xy): (Option<Rgb>, Option<Chroma>) = match xy {
            Some(xy) => (Some(xy.rgb), Some(Chroma::Point { x: xy.x, y: xy.y })),
            None => (None, self.last_xy),
        };
        let told = merge_bridge_update(&self.last_color, on, brightness, rgb);
        // What is merged has no color temperature. Where the bridge echoes the
        // coordinates of one, only the brightness is taken from it.
        let echoed = update.xy.is_some() && xy.is_none();
        let color = match (echoed, self.last_color, told) {
            (true, ColorType::Ccta { kelvin, .. }, ColorType::Rgba { color }) => ColorType::Ccta {
                kelvin,
                a: color.alpha,
            },
            _ => told,
        };
        Some((color, last_xy))
    }
}

impl<S> HueDevice<S> for ColorBulbDevice<S> {
    type Val = ColorType;

    open spec fn resource(self) -> Seq<char> {
        self.resource_type@
    }

    open spec fn accepts(self, event: Event<ColorType, S>) -> bool {
        self.inner.color.accepts(event)
    }

    open spec fn step_fits(self, event: Event<ColorType, S>, now: Instant) -> bool {
        self.inner.color.step_fits(event, now)
    }

    open spec fn update_fits(self, update: ResourceData, now: Instant) -> bool {
        self.has_news(update) ==> self.inner.color.clock_fits(now)
    }

    /// A setting that is handed out becomes the last color, and its chromaticity
    /// the last that was sent.
    open spec fn after_event(self, event: Event<ColorType, S>, now: Instant) -> (
        Self,
        Step<ColorType, S, LightCommand>,
    ) {
        let (state, inner) = self.inner.color.on_event(event, now);
        let next = match inner.action {
            Action::Ready((color, _)) => ColorBulbDevice {
                last_xy: Some(bridge_state(color).xy),
                last_color: color,
                ..self.with(state)
            },
            _ => self.with(state),
        };
        (next, settle(inner, |v: ColorType| v, |v: ColorType| color_command(v)))
    }

    open spec fn due(self, update: ResourceData) -> Option<ColorType> {
        if self.has_news(update) && self.inner.color.reports(self.updated_color(update)) {
            Some(self.updated_color(update))
        } else {
            None
        }
    }

    open spec fn after_update(self, update: ResourceData, now: Instant) -> (
        Self,
        Option<(S, ColorType)>,
    ) {
        if self.has_news(update) {
            let color = self.updated_color(update);
            (
                ColorBulbDevice {
                    last_xy: self.updated_xy(update),
                    last_color: color,
                    ..self.with(self.inner.color.after_reading(color, now))
                },
                self.inner.color.answered_by_reading(color),
            )
        } else {
            (self, None)
        }
    }

    open spec fn forgotten(self) -> Self {
        ColorBulbDevice {
            last_xy: None,
            last_color: unlit_white(),
            ..self.with(State::Unknown)
        }
    }

    fn resource_type(&self) -> (r: &'static str) {
        self.resource_type
    }

    fn next_setting(&mut self, event: Event<ColorType, S>, now: Instant) -> (step: Step<
        ColorType,
        S,
        LightCommand,
    >) {
        let inner = self.inner.color.next_setting(event, now);
        match inner.action.into_result() {
            Ok((val, reply)) => {
                let bridge = color_to_bridge(&val);
                self.last_xy = Some(bridge.xy);
                self.last_color = val;
                Step {
                    ack: match reply {
                        Some(s) => Some((s, val)),
                        None => None,
                    },
                    action: Action::Ready(
                        LightCommand {
                            on: Some(On { on: bridge.on }),
                            dimming: if bridge.on {
                                Some(Brightness::Alpha(bridge.brightness))
                            } else {
                                None
                            },
                            color: Some(bridge.xy),
                        },
                    ),
                }
            },
            Err(action) => Step { ack: inner.ack, action },
        }
    }

    fn report_due(&self, update: &ResourceData) -> (r: Option<ColorType>) {
        match self.color_after(update) {
            Some((color, _)) => self.inner.color.report_due(&color),
            None => None,
        }
    }

    fn apply_update(&mut self, update: &ResourceData, now: Instant) -> (ack: Option<
        (S, ColorType),
    >) {
        match self.color_after(update) {
            Some((color, xy)) => {
                self.last_xy = xy;
                self.last_color = color;
                self.inner.color.report_update(color, now)
            },
            None => None,
        }
    }

    fn reset(&mut self) {
        self.inner.reset_state();
        self.last_xy = None;
        self.last_color = ColorType::Rgba {
            color: Rgba { red: 255, green: 255, blue: 255, alpha: 0 },
        };
    }
}

/// A light of any kind.
#[derive(Debug)]
pub enum DeviceWrapper<S> {
    Switch(SwitchDevice<S>),
    Dimmer(DimmerDevice<S>),
    ColorBulb(ColorBulbDevice<S>),
}

/// An event that happens to a light of some kind.
#[derive(Debug)]
pub enum LightEvent<S> {
    Switch(Event<bool, S>),
    Dimmer(Event<Flt, S>),
    ColorBulb(Event<ColorType, S>),
}

/// The step of a light of some kind.
#[derive(Debug)]
pub enum LightStep<S> {
    Switch(Step<bool, S, LightCommand>),
    Dimmer(Step<Flt, S, LightCommand>),
    ColorBulb(Step<ColorType, S, LightCommand>),
    /// The event was for a light of another kind. Nothing has changed.
    Mismatch,
}

/// A value for the backend from a light of some kind.
#[derive(Clone, Copy, Debug, PartialEq, Eq, Structural)]
pub enum LightValue {
    Switch(bool),
    Dimmer(Flt),
    ColorBulb(ColorType),
}

impl<S> DeviceWrapper<S> {
    /// The resource type of the light.
    pub open spec fn resource(self) -> Seq<char> {
        match self {
            DeviceWrapper::Switch(d) => d.resource(),
            DeviceWrapper::Dimmer(d) => d.resource(),
            DeviceWrapper::ColorBulb(d) => d.resource(),
        }
    }

    /// Whether `event` can happen to the light now, if it is for its kind.
    pub open spec fn accepts(self, event: LightEvent<S>, now: Instant) -> bool {
        match (self, event) {
            (DeviceWrapper::Switch(d), LightEvent::Switch(e)) => d.accepts(e) && d.step_fits(e, now),
            (DeviceWrapper::Dimmer(d), LightEvent::Dimmer(e)) => d.accepts(e) && d.step_fits(e, now),
            (DeviceWrapper::ColorBulb(d), LightEvent::ColorBulb(e)) => d.accepts(e) && d.step_fits(
                e,
                now,
            ),
            _ => true,
        }
    }

    /// The light after an event, and the step that follows.
    pub open spec fn after_event(self, event: LightEvent<S>, now: Instant) -> (Self, LightStep<S>) {
        match (self, event) {
            (DeviceWrapper::Switch(d), LightEvent::Switch(e)) => {
                let (d, step) = d.after_event(e, now);
                (DeviceWrapper::Switch(d), LightStep::Switch(step))
            },
            (DeviceWrapper::Dimmer(d), LightEvent::Dimmer(e)) => {
                let (d, step) = d.after_event(e, now);
                (DeviceWrapper::Dimmer(d), LightStep::Dimmer(step))
            },
            (DeviceWrapper::ColorBulb(d), LightEvent::ColorBulb(e)) => {
                let (d, step) = d.after_event(e, now);
                (DeviceWrapper::ColorBulb(d), LightStep::ColorBulb(step))
            },
            _ => (self, LightStep::Mismatch),
        }
    }

    /// What is due to the backend for an update.
    pub open spec fn due(self, update: ResourceData) -> Option<LightValue> {
        match self {
            DeviceWrapper::Switch(d) => match d.due(update) {
                Some(v) => Some(LightValue::Switch(v)),
                None => None,
            },
            DeviceWrapper::Dimmer(d) => match d.due(update) {
                Some(v) => Some(LightValue::Dimmer(v)),
                None => None,
            },
            DeviceWrapper::ColorBulb(d) => match d.due(update) {
                Some(v) => Some(LightValue::ColorBulb(v)),
                None => None,
            },
        }
    }

    /// Whether the clock can show the end of the period that `update` starts.
    pub open spec fn update_fits(self, update: ResourceData, now: Instant) -> bool {
        match self {
            DeviceWrapper::Switch(d) => d.update_fits(update, now),
            DeviceWrapper::Dimmer(d) => d.update_fits(update, now),
            DeviceWrapper::ColorBulb(d) => d.update_fits(update, now),
        }
    }

    /// The light after an update, and the client to be answered.
    pub open spec fn after_update(self, update: ResourceData, now: Instant) -> (
        Self,
        Option<(S, LightValue)>,
    ) {
        match self {
            DeviceWrapper::Switch(d) => {
                let (d, ack) = d.after_update(update, now);
                (
                    DeviceWrapper::Switch(d),
                    match ack {
                        Some((s, v)) => Some((s, LightValue::Switch(v))),
                        None => None,
                    },
                )
            },
            DeviceWrapper::Dimmer(d) => {
                let (d, ack) = d.after_update(update, now);
                (
                    DeviceWrapper::Dimmer(d),
                    match ack {
                        Some((s, v)) => Some((s, LightValue::Dimmer(v))),
                        None => None,
                    },
                )
            },
            DeviceWrapper::ColorBulb(d) => {
                let (d, ack) = d.after_update(update, now);
                (
                    DeviceWrapper::ColorBulb(d),
                    match ack {
                        Some((s, v)) => Some((s, LightValue::ColorBulb(v))),
                        None => None,
                    },
                )
            },
        }
    }

    /// The light of which nothing is known.
    pub open spec fn forgotten(self) -> Self {
        match self {
            DeviceWrapper::Switch(d) => DeviceWrapper::Switch(d.forgotten()),
            DeviceWrapper::Dimmer(d) => DeviceWrapper::Dimmer(d.forgotten()),
            DeviceWrapper::ColorBulb(d) => DeviceWrapper::ColorBulb(d.forgotten()),
        }
    }

    /// The resource type of the light: "light" or "grouped_light".
    pub fn resource_type(&self) -> (r: &'static str)
        ensures
            r@ == self.resource(),
    {
        match self {
            DeviceWrapper::Switch(d) => d.resource_type(),
            DeviceWrapper::Dimmer(d) => d.resource_type(),
            DeviceWrapper::ColorBulb(d) => d.resource_type(),
        }
    }

    /// Takes one step towards the next command for the bridge.
    pub fn next_setting(&mut self, event: LightEvent<S>, now: Instant) -> (step: LightStep<S>)
        requires
            old(self).accepts(event, now),
        ensures
            (*final(self), step) == old(self).after_event(event, now),
    {
        match (self, event) {
            (DeviceWrapper::Switch(d), LightEvent::Switch(e)) => LightStep::Switch(
                d.next_setting(e, now),
            ),
            (DeviceWrapper::Dimmer(d), LightEvent::Dimmer(e)) => LightStep::Dimmer(
                d.next_setting(e, now),
            ),
            (DeviceWrapper::ColorBulb(d), LightEvent::ColorBulb(e)) => LightStep::ColorBulb(
                d.next_setting(e, now),
            ),
            _ => LightStep::Mismatch,
        }
    }

    /// The value to be written to the backend before `apply_update`.
    pub fn report_due(&self, update: &ResourceData) -> (r: Option<LightValue>)
        ensures
            r == self.due(*update),
    {
        match self {
            DeviceWrapper::Switch(d) => match d.report_due(update) {
                Some(v) => Some(LightValue::Switch(v)),
                None => None,
            },
            DeviceWrapper::Dimmer(d) => match d.report_due(update) {
                Some(v) => Some(LightValue::Dimmer(v)),
                None => None,
            },
            DeviceWrapper::ColorBulb(d) => match d.report_due(update) {
                Some(v) => Some(LightValue::ColorBulb(v)),
                None => None,
            },
        }
    }

    /// Takes note of what the bridge says of the light. Returns the client to be
    /// answered.
    pub fn apply_update(&mut self, update: &ResourceData, now: Instant) -> (ack: Option<
        (S, LightValue),
    >)
        requires
            old(self).update_fits(*update, now),
        ensures
            (*final(self), ack) == old(self).after_update(*update, now),
    {
        match self {
            DeviceWrapper::Switch(d) => match d.apply_update(update, now) {
                Some((s, v)) => Some((s, LightValue::Switch(v))),
                None => None,
            },
            DeviceWrapper::Dimmer(d) => match d.apply_update(update, now) {
                Some((s, v)) => Some((s, LightValue::Dimmer(v))),
                None => None,
            },
            DeviceWrapper::ColorBulb(d) => match d.apply_update(update, now) {
                Some((s, v)) => Some((s, LightValue::ColorBulb(v))),
                None => None,
            },
        }
    }

    /// Forgets all that is known of the light.
    pub fn reset(&mut self)
        ensures
            *final(self) == old(self).forgotten(),
    {
        match self {
            DeviceWrapper::Switch(d) => d.reset(),
            DeviceWrapper::Dimmer(d) => d.reset(),
            DeviceWrapper::ColorBulb(d) => d.reset(),
        }
    }
}

/// The bridge that has carried out a color setting, and says so, has no effect:
/// the color that it tells is the one that was set, be it a color or a color
/// temperature. The coordinates may differ by rounding; without them, a color
/// temperature is not echoed. Left out is a light that says it is on and not how
/// bright: it counts as fully lit.
pub proof fn echoed_setting_is_recognized<S>(d: ColorBulbDevice<S>, update: ResourceData)
    requires
        d.last_xy is Some,
        update.xy matches Some(xy) ==> xy.near_last,
        d.last_color is Ccta ==> update.xy is Some,
        update.on == color_command(d.last_color).on || update.on is None,
        update.dimming matches Some(dimming) ==> dimming.alpha == alpha(d.last_color),
        update.on is Some && 0 < alpha(d.last_color) < 255 ==> update.dimming is Some,
    ensures
        d.updated_color(update) == d.last_color,
        d.updated_xy(update) == d.last_xy,
{
}

/// What a light is told by a color setting is what its device remembers: the
/// color, and the chromaticity to hold answers against.
pub proof fn sent_color_is_remembered<S>(
    d: ColorBulbDevice<S>,
    event: Event<ColorType, S>,
    now: Instant,
)
    ensures
        ({
            let (next, step) = d.after_event(event, now);
            step.action matches Action::Ready(command) ==> {
                &&& command == color_command(next.last_color)
                &&& command.color == next.last_xy
            }
        }),
{
}

/// A light that is set to a brightness of zero is turned off, and any other
/// brightness turns it on. A light that says it is off has a brightness of zero.
pub proof fn off_is_zero_brightness(brightness: Flt, update: ResourceData)
    ensures
        dimmer_command(brightness).on == Some(On { on: !brightness.eq_num(Flt { bits: 0 }) }),
        dimmer_command(brightness).dimming is Some <==> !brightness.eq_num(Flt { bits: 0 }),
        update.on == Some(On { on: false }) ==> told_brightness(update) == Some(Flt { bits: 0 }),
{
}

/// A light that has been reset knows nothing, whatever it was told before, and
/// resetting it again changes nothing.
pub proof fn reset_forgets_updates<S>(d: DeviceWrapper<S>, update: ResourceData, now: Instant)
    ensures
        d.after_update(update, now).0.forgotten() == d.forgotten(),
        d.forgotten().forgotten() == d.forgotten(),
{
}

/// Whatever happens to a light, its resource type stays.
pub proof fn resource_type_stays<S>(
    d: DeviceWrapper<S>,
    event: LightEvent<S>,
    update: ResourceData,
    now: Instant,
)
    ensures
        d.after_event(event, now).0.resource() == d.resource(),
        d.after_update(update, now).0.resource() == d.resource(),
        d.forgotten().resource() == d.resource(),
{
}

} // verus!
