use drmem::device::{ColorType, Flt};
use drmem::driver::classes::colorbulb_type::ColorBulb;
use drmem::driver::classes::dimmer_type::{Dimmer, DimmerProperty};
use drmem::driver::classes::switch_type::{Switch, SwitchProperty};
use drmem::driver::overridable_device::{Action, Event, OverrideConfig, State};
use drmem::driver::registering::{next_registration, start_registration, RegistrationAction};
use drmem::driver::{Channel, Registration};
use drmem::error::Error;

const CFG: OverrideConfig = OverrideConfig {
    override_duration: Some(7),
    envelope: Some(3),
};

fn flt(v: f64) -> Flt {
    Flt { bits: v.to_bits() }
}

fn check_error(r: &Registration<'_>) {
    assert_eq!(r.name, "error");
    assert_eq!(r.subpath, Some("sub"));
    assert_eq!(r.units, None);
    assert_eq!(r.channel, Channel::ReadOnly);
    assert_eq!(r.max_history, Some(10));
}

fn check_settable(r: &Registration<'_>, name: &str, units: Option<&str>) {
    assert_eq!(r.name, name);
    assert_eq!(r.subpath, Some("sub"));
    assert_eq!(r.units, units);
    assert_eq!(
        r.channel,
        Channel::Overridable { override_duration: Some(7), envelope: Some(3) }
    );
    assert_eq!(r.max_history, Some(10));
}

#[test]
fn classes_register_their_devices() {
    let r = Switch::<u32>::register_devices(Some("sub"), &CFG, Some(10));
    assert_eq!(r.len(), 2);
    check_error(&r[0]);
    check_settable(&r[1], "state", None);

    let r = Dimmer::<u32>::register_devices(Some("sub"), &CFG, Some(10));
    assert_eq!(r.len(), 2);
    check_error(&r[0]);
    check_settable(&r[1], "brightness", Some("%"));

    let r = ColorBulb::<u32>::register_devices(Some("sub"), &CFG, Some(10));
    assert_eq!(r.len(), 2);
    check_error(&r[0]);
    check_settable(&r[1], "color", None);
}

#[test]
fn switch_hands_out_settings_and_answers() {
    let mut sw = Switch::<u32>::new(&CFG, None, 100);
    assert_eq!(sw.error.last, None);

    let step = sw.next_setting(Event::Poll, 100);
    assert!(matches!(step.action, Action::Wait(None)));
    let step = sw.next_setting(Event::Setting(true, 5), 100);
    assert!(matches!(step.action, Action::Again));
    assert_eq!(step.ack, None);
    let step = sw.next_setting(Event::Poll, 100);
    assert!(matches!(step.action, Action::Report(true)));
    let step = sw.next_setting(Event::Reported, 100);
    assert_eq!(step.ack, Some((5, true)));
    assert!(matches!(step.action, Action::Ready(SwitchProperty { state: true })));
    assert!(matches!(sw.state.state, State::Applying { deadline: 103, .. }));

    let step = sw.next_setting(Event::Closed, 100);
    assert!(matches!(step.action, Action::Finished));
}

#[test]
fn switch_reports() {
    let mut sw = Switch::<u32>::new(&CFG, None, 100);
    assert_eq!(sw.report_due(&SwitchProperty { state: true }), Some(true));
    assert_eq!(sw.report_update(SwitchProperty { state: true }, 100), None);
    assert_eq!(sw.report_due(&SwitchProperty { state: true }), None);
    assert!(matches!(sw.state.state, State::Synced { value: true }));
    assert!(sw.report_error(true));
    assert_eq!(sw.error.last, Some(true));
    sw.reset_state();
    assert!(matches!(sw.state.state, State::Unknown));
    assert_eq!(sw.error.last, Some(true));
}

#[test]
fn switch_starts_with_what_the_backend_remembers() {
    let mut sw = Switch::<u32>::new(&CFG, Some(false), 100);
    let step = sw.next_setting(Event::Poll, 100);
    assert!(matches!(step.action, Action::Report(false)));
    let step = sw.next_setting(Event::Reported, 100);
    assert_eq!(step.ack, None);
    assert!(matches!(step.action, Action::Ready(SwitchProperty { state: false })));
}

#[test]
fn dimmer_clamps_what_it_hands_out() {
    for (asked, given) in [(150.0, 100.0), (-1.0, 0.0), (42.5, 42.5)] {
        let mut dim = Dimmer::<u32>::new(&CFG, None, 100);
        dim.next_setting(Event::Setting(flt(asked), 5), 100);
        let step = dim.next_setting(Event::Poll, 100);
        // The backend sees what was asked for.
        assert!(matches!(step.action, Action::Report(v) if v == flt(asked)));
        let step = dim.next_setting(Event::Reported, 100);
        assert_eq!(step.ack, Some((5, flt(given))));
        assert!(matches!(
            step.action,
            Action::Ready(DimmerProperty { brightness }) if brightness == flt(given)
        ));
    }
}

#[test]
fn dimmer_reports() {
    let mut dim = Dimmer::<u32>::new(&CFG, None, 100);
    let prop = DimmerProperty { brightness: flt(30.0) };
    assert_eq!(dim.report_due(&prop), Some(flt(30.0)));
    assert_eq!(dim.report_update(prop, 100), None);
    assert_eq!(dim.report_due(&prop), None);
    assert!(!dim.report_error(false));
    assert_eq!(dim.error.last, Some(false));
    dim.reset_state();
    assert!(matches!(dim.brightness.state, State::Unknown));
}

#[test]
fn color_bulb_can_be_reset() {
    let white = ColorType::Ccta { kelvin: 2700, a: 255 };
    let mut bulb = ColorBulb::<u32>::new(&CFG, Some(white), 100);
    assert_eq!(bulb.color.get_last(), Some(&white));
    bulb.reset_state();
    assert_eq!(bulb.color.get_last(), None);
}

/// Registers a list. Returns what was requested and how it ended; the request with
/// the name `refused` is refused.
fn register(list: &Vec<Registration<'_>>, refused: &str) -> (Vec<String>, Result<(), Error>) {
    let mut requests = vec![];
    let mut action = start_registration(list);
    loop {
        match action {
            RegistrationAction::Request(idx, reg) => {
                requests.push(reg.name.to_string());
                let reply = if reg.name == refused {
                    Err(Error::ConfigError(String::from("in use")))
                } else {
                    Ok(())
                };
                action = next_registration(list, idx, reply);
            }
            RegistrationAction::Done => return (requests, Ok(())),
            RegistrationAction::Failed(e) => return (requests, Err(e)),
        }
    }
}

#[test]
fn all_devices_are_requested_in_order() {
    let list = Dimmer::<u32>::register_devices(None, &CFG, None);
    let (requests, end) = register(&list, "");
    assert_eq!(requests, vec!["error", "brightness"]);
    assert!(end.is_ok());
    let (requests, end) = register(&vec![], "");
    assert!(requests.is_empty());
    assert!(end.is_ok());
}

#[test]
fn refused_device_ends_the_registration() {
    let list = Switch::<u32>::register_devices(None, &CFG, None);
    for (refused, asked) in [("error", vec!["error"]), ("state", vec!["error", "state"])] {
        let (requests, end) = register(&list, refused);
        assert_eq!(requests, asked);
        assert!(matches!(end, Err(Error::ConfigError(text)) if text == "in use"));
    }
}
