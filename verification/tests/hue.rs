use drmem::device::{ColorType, Flt, Rgb, Rgba};
use drmem::driver::classes::colorbulb_type::ColorBulb;
use drmem::driver::classes::dimmer_type::Dimmer;
use drmem::driver::classes::switch_type::Switch;
use drmem::driver::overridable_device::{Action, Event, OverrideConfig, State, Step};
use drmem::hue::color::Chroma;
use drmem::hue::device_traits::{
    ColorBulbDevice, DeviceWrapper, DimmerDevice, HueDevice, LightEvent, LightStep, LightValue,
    SwitchDevice,
};
use drmem::hue::payload::{Brightness, Dimming, LightCommand, On, ResourceData, XyReading};

const CFG: OverrideConfig = OverrideConfig {
    override_duration: Some(7),
    envelope: Some(3),
};

const NOTHING: ResourceData = ResourceData { on: None, dimming: None, xy: None };

fn flt(v: f64) -> Flt {
    Flt { bits: v.to_bits() }
}

fn rgba(red: u8, green: u8, blue: u8, alpha: u8) -> ColorType {
    ColorType::Rgba {
        color: Rgba { red, green, blue, alpha },
    }
}

fn told(percent: f64, alpha: u8) -> Option<Dimming> {
    Some(Dimming { percent: flt(percent), alpha })
}

fn xy(near_last: bool) -> Option<XyReading> {
    Some(XyReading {
        x: 11,
        y: 12,
        rgb: Rgb { red: 1, green: 2, blue: 3 },
        near_last,
    })
}

fn switch() -> SwitchDevice<u32> {
    SwitchDevice(Switch::new(&CFG, None, 100))
}

fn dimmer() -> DimmerDevice<u32> {
    DimmerDevice { dimmer: Dimmer::new(&CFG, None, 100) }
}

fn bulb(is_group: bool) -> ColorBulbDevice<u32> {
    ColorBulbDevice::new(ColorBulb::new(&CFG, None, 100), is_group)
}

/// Sends a setting to a light and takes the command that comes of it.
fn set<D: HueDevice<u32>>(d: &mut D, value: D::Val, client: u32) -> Step<D::Val, u32, LightCommand> {
    d.next_setting(Event::Setting(value, client), 100);
    let step = d.next_setting(Event::Poll, 100);
    assert!(matches!(step.action, Action::Report(_)));
    d.next_setting(Event::Reported, 100)
}

fn command<V>(step: Step<V, u32, LightCommand>) -> LightCommand {
    match step.action {
        Action::Ready(command) => command,
        _ => panic!("no command"),
    }
}

#[test]
fn switch_becomes_an_on_command() {
    for on in [false, true] {
        let mut d = switch();
        let step = set(&mut d, on, 5);
        assert_eq!(step.ack, Some((5, on)));
        assert_eq!(
            command(step),
            LightCommand { on: Some(On { on }), dimming: None, color: None }
        );
    }
}

#[test]
fn switch_takes_note_of_on() {
    let mut d = switch();
    assert_eq!(d.report_due(&NOTHING), None);
    assert_eq!(d.apply_update(&NOTHING, 100), None);
    assert!(matches!(d.0.state.state, State::Unknown));
    let update = ResourceData { on: Some(On { on: true }), ..NOTHING };
    assert_eq!(d.report_due(&update), Some(true));
    assert_eq!(d.apply_update(&update, 100), None);
    assert!(matches!(d.0.state.state, State::Synced { value: true }));
    d.reset();
    assert!(matches!(d.0.state.state, State::Unknown));
}

#[test]
fn dimmer_becomes_a_dimming_command() {
    let mut d = dimmer();
    let step = set(&mut d, flt(40.0), 5);
    assert_eq!(step.ack, Some((5, flt(40.0))));
    assert_eq!(
        command(step),
        LightCommand {
            on: Some(On { on: true }),
            dimming: Some(Brightness::Percent(flt(40.0))),
            color: None,
        }
    );

    // Everything at or below zero turns the light off.
    for off in [0.0, -0.0, -5.0] {
        let mut d = dimmer();
        assert_eq!(
            command(set(&mut d, flt(off), 5)),
            LightCommand { on: Some(On { on: false }), dimming: None, color: None }
        );
    }
}

#[test]
fn dimmer_without_clients_gives_an_empty_command() {
    let mut d = dimmer();
    let step = d.next_setting(Event::Closed, 100);
    assert_eq!(
        command(step),
        LightCommand { on: None, dimming: None, color: None }
    );
}

#[test]
fn dimmer_takes_note_of_brightness() {
    let on = Some(On { on: true });
    let off = Some(On { on: false });
    let cases = [
        (off, None, Some(0.0)),
        (off, told(30.0, 77), Some(0.0)),
        (on, None, Some(100.0)),
        (on, told(30.0, 77), Some(30.0)),
        (None, told(30.0, 77), Some(30.0)),
        (None, None, None),
    ];
    for (on, dimming, brightness) in cases {
        let mut d = dimmer();
        let update = ResourceData { on, dimming, xy: None };
        assert_eq!(d.report_due(&update), brightness.map(flt));
        assert_eq!(d.apply_update(&update, 100), None);
        assert_eq!(d.dimmer.brightness.get_last().copied(), brightness.map(flt));
    }
}

#[test]
fn dimmer_registers_like_its_class() {
    let r = DimmerDevice::<u32>::register_devices(None, &CFG, None);
    assert_eq!(r.len(), 2);
    assert_eq!(r[0].name, "error");
    assert_eq!(r[1].name, "brightness");
    assert_eq!(r[1].units, Some("%"));
    assert_eq!(r[1].subpath, None);
}

#[test]
fn color_becomes_a_color_command() {
    let mut d = bulb(false);
    let color = rgba(10, 20, 30, 128);
    let step = set(&mut d, color, 5);
    assert_eq!(step.ack, Some((5, color)));
    let chroma = Chroma::Rgb(Rgb { red: 10, green: 20, blue: 30 });
    assert_eq!(
        command(step),
        LightCommand {
            on: Some(On { on: true }),
            dimming: Some(Brightness::Alpha(128)),
            color: Some(chroma),
        }
    );
    assert_eq!(d.last_xy, Some(chroma));
    assert_eq!(d.last_color, color);

    let mut d = bulb(false);
    let off = ColorType::Ccta { kelvin: 2700, a: 0 };
    assert_eq!(
        command(set(&mut d, off, 5)),
        LightCommand {
            on: Some(On { on: false }),
            dimming: None,
            color: Some(Chroma::Kelvin(2700)),
        }
    );
    assert_eq!(d.last_color, off);
}

#[test]
fn echo_of_a_color_changes_nothing() {
    let mut d = bulb(false);
    let color = rgba(10, 20, 30, 128);
    set(&mut d, color, 5);

    let update = ResourceData {
        on: Some(On { on: true }),
        dimming: told(50.0, 128),
        xy: xy(true),
    };
    assert_eq!(d.report_due(&update), None);
    assert_eq!(d.apply_update(&update, 100), None);
    assert_eq!(d.last_color, color);
    assert!(matches!(d.inner.color.state, State::Applying { last_seen, .. } if last_seen == color));

    // Coordinates that are close alone are no news at all.
    let update = ResourceData { xy: xy(true), ..NOTHING };
    d.inner.color.state = State::Unknown;
    assert_eq!(d.report_due(&update), None);
    assert_eq!(d.apply_update(&update, 100), None);
    assert!(matches!(d.inner.color.state, State::Unknown));
}

#[test]
fn new_coordinates_change_the_color() {
    let mut d = bulb(false);
    d.last_color = rgba(10, 20, 30, 128);
    d.last_xy = Some(Chroma::Kelvin(2700));
    let update = ResourceData { xy: xy(false), ..NOTHING };
    assert_eq!(d.report_due(&update), Some(rgba(1, 2, 3, 128)));
    assert_eq!(d.apply_update(&update, 100), None);
    assert_eq!(d.last_xy, Some(Chroma::Point { x: 11, y: 12 }));
    assert_eq!(d.last_color, rgba(1, 2, 3, 128));

    // Where no coordinates are known, all are new.
    let mut d = bulb(false);
    let update = ResourceData { xy: xy(true), on: Some(On { on: true }), ..NOTHING };
    assert_eq!(d.report_due(&update), Some(rgba(1, 2, 3, 255)));
    d.apply_update(&update, 100);
    assert_eq!(d.last_xy, Some(Chroma::Point { x: 11, y: 12 }));
}

#[test]
fn color_bulb_can_be_a_group_and_be_reset() {
    assert_eq!(bulb(false).resource_type(), "light");
    let mut d = bulb(true);
    assert_eq!(d.resource_type(), "grouped_light");
    assert_eq!(d.last_xy, None);
    assert_eq!(d.last_color, rgba(255, 255, 255, 0));
    set(&mut d, rgba(1, 2, 3, 4), 5);
    d.reset();
    assert_eq!(d.last_xy, None);
    assert_eq!(d.last_color, rgba(255, 255, 255, 0));
    assert!(matches!(d.inner.color.state, State::Unknown));
    assert_eq!(d.resource_type, "grouped_light");
}

#[test]
fn wrapper_is_the_light_in_it() {
    let mut w = DeviceWrapper::Switch(switch());
    assert_eq!(w.resource_type(), "light");
    assert!(matches!(
        w.next_setting(LightEvent::Switch(Event::Setting(true, 5)), 100),
        LightStep::Switch(Step { ack: None, action: Action::Again })
    ));
    assert!(matches!(
        w.next_setting(LightEvent::Dimmer(Event::Poll), 100),
        LightStep::Mismatch
    ));
    assert!(matches!(
        w.next_setting(LightEvent::Switch(Event::Reported), 100),
        LightStep::Switch(Step { ack: Some((5, true)), action: Action::Ready(_) })
    ));
    w.reset();
    let update = ResourceData { on: Some(On { on: true }), ..NOTHING };
    assert_eq!(w.report_due(&update), Some(LightValue::Switch(true)));
    assert_eq!(w.apply_update(&update, 100), None);
    assert_eq!(w.report_due(&update), None);

    let mut w = DeviceWrapper::Dimmer(dimmer());
    assert_eq!(w.resource_type(), "light");
    assert_eq!(w.report_due(&update), Some(LightValue::Dimmer(flt(100.0))));
    w.next_setting(LightEvent::Dimmer(Event::Setting(flt(100.0), 6)), 100);
    w.next_setting(LightEvent::Dimmer(Event::Reported), 100);
    w.next_setting(LightEvent::Dimmer(Event::Setting(flt(30.0), 7)), 100);
    let update = ResourceData { dimming: told(30.0, 77), ..NOTHING };
    // The light turns out to be there already.
    assert_eq!(w.apply_update(&update, 100), Some((7, LightValue::Dimmer(flt(30.0)))));

    let mut w = DeviceWrapper::ColorBulb(bulb(true));
    assert_eq!(w.resource_type(), "grouped_light");
    let update = ResourceData { xy: xy(false), ..NOTHING };
    assert_eq!(w.report_due(&update), Some(LightValue::ColorBulb(rgba(1, 2, 3, 0))));
    assert_eq!(w.apply_update(&update, 100), None);
    assert!(matches!(
        w.next_setting(LightEvent::ColorBulb(Event::Closed), 100),
        LightStep::ColorBulb(Step { ack: None, action: Action::Finished })
    ));
}

#[test]
fn resource_type_does_not_change() {
    let mut w = DeviceWrapper::ColorBulb(bulb(true));
    w.next_setting(LightEvent::ColorBulb(Event::Setting(rgba(1, 2, 3, 4), 5)), 100);
    assert_eq!(w.resource_type(), "grouped_light");
    w.apply_update(&ResourceData { on: Some(On { on: true }), ..NOTHING }, 100);
    assert_eq!(w.resource_type(), "grouped_light");
    w.reset();
    assert_eq!(w.resource_type(), "grouped_light");
}

#[test]
fn echo_of_a_color_temperature_changes_nothing() {
    let mut d = bulb(false);
    let white = ColorType::Ccta { kelvin: 2700, a: 255 };
    set(&mut d, white, 5);

    for dimming in [told(100.0, 255), None] {
        let update = ResourceData { on: Some(On { on: true }), dimming, xy: xy(true) };
        assert_eq!(d.report_due(&update), None);
        assert_eq!(d.apply_update(&update, 100), None);
        assert_eq!(d.last_color, white);
        assert!(matches!(
            d.inner.color.state,
            State::Applying { last_seen, .. } if last_seen == white
        ));
    }
}

#[test]
fn color_temperature_stays_where_its_coordinates_are_echoed() {
    let white = |a: u8| ColorType::Ccta { kelvin: 2700, a };
    let mut d = bulb(false);
    d.last_color = white(200);
    d.last_xy = Some(Chroma::Kelvin(2700));
    let cases = [
        (None, told(50.0, 128), white(128)),
        (Some(On { on: false }), None, white(0)),
        (None, told(50.0, 128), white(0)),
        (Some(On { on: true }), None, white(255)),
        (Some(On { on: true }), told(50.0, 128), white(128)),
    ];
    for (on, dimming, color) in cases {
        d.apply_update(&ResourceData { on, dimming, xy: xy(true) }, 100);
        assert_eq!(d.last_color, color);
    }
    d.apply_update(&ResourceData { xy: xy(false), ..NOTHING }, 100);
    assert_eq!(d.last_color, rgba(1, 2, 3, 128));
}

#[test]
fn color_temperature_becomes_white_where_no_coordinates_are_told() {
    let mut d = bulb(false);
    d.last_color = ColorType::Ccta { kelvin: 2700, a: 200 };
    d.last_xy = Some(Chroma::Kelvin(2700));
    d.apply_update(&ResourceData { dimming: told(50.0, 128), ..NOTHING }, 100);
    assert_eq!(d.last_color, rgba(255, 255, 255, 128));
}
