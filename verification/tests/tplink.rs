use drmem::device::Flt;
use drmem::driver::classes::dimmer_type::DimmerProperty;
use drmem::driver::overridable_device::{Action, Event, OverrideConfig, State, Step};
use drmem::driver::Channel;
use drmem::tplink::config::{DevCfgType, Params};
use drmem::tplink::device::{DeviceSet, DimmerWithIndicator, Input, Output, Setting};

const CFG: OverrideConfig = OverrideConfig {
    override_duration: Some(7),
    envelope: Some(3),
};

fn flt(v: f64) -> Flt {
    Flt { bits: v.to_bits() }
}

fn params(dev_type: DevCfgType, override_timeout: Option<u64>) -> Params {
    Params { dev_type, override_timeout }
}

#[test]
fn indicator_follows_the_dimmer_in_the_registration() {
    let r = DimmerWithIndicator::<u32>::register_devices(Some("x"), &CFG, Some(4));
    let names: Vec<&str> = r.iter().map(|r| r.name).collect();
    assert_eq!(names, vec!["error", "brightness", "indicator"]);
    assert_eq!(r[2].units, None);
    assert_eq!(r[2].subpath, Some("x"));
    assert_eq!(r[2].max_history, Some(4));
    assert_eq!(
        r[2].channel,
        Channel::Overridable { override_duration: Some(7), envelope: Some(3) }
    );
}

#[test]
fn configuration_decides_the_timeouts() {
    let cfg = DeviceSet::<u32>::override_config(&params(DevCfgType::Switch, Some(2)));
    assert_eq!(cfg.override_duration, Some(120_000_000_000));
    assert_eq!(cfg.envelope, Some(5_000_000_000));
    let cfg = DeviceSet::<u32>::override_config(&params(DevCfgType::Switch, None));
    assert_eq!(cfg.override_duration, None);
    assert_eq!(cfg.envelope, Some(5_000_000_000));
}

#[test]
fn configuration_decides_the_devices() {
    for (kind, names) in [
        (DevCfgType::Switch, vec!["error", "state"]),
        (DevCfgType::Outlet, vec!["error", "state"]),
        (DevCfgType::Dimmer, vec!["error", "brightness", "indicator"]),
    ] {
        let cfg = params(kind, Some(1));
        let r = DeviceSet::<u32>::register_devices(None, &cfg, None);
        let found: Vec<&str> = r.iter().map(|r| r.name).collect();
        assert_eq!(found, names);
        for reg in &r[1..] {
            assert_eq!(
                reg.channel,
                Channel::Overridable {
                    override_duration: Some(60_000_000_000),
                    envelope: Some(5_000_000_000),
                }
            );
        }
        let set = DeviceSet::<u32>::new(&cfg, Some(true), None, None, 10);
        assert_eq!(matches!(set, DeviceSet::Dimmer(_)), kind == DevCfgType::Dimmer);
    }
}

#[test]
fn either_part_can_be_set() {
    let mut d = DimmerWithIndicator::<u32>::new(&CFG, None, None, 100);

    d.next_setting(Input::Dimmer(Event::Setting(flt(120.0), 1)), 100);
    d.next_setting(Input::Indicator(Event::Setting(true, 2)), 100);
    assert!(matches!(
        d.next_setting(Input::Indicator(Event::Poll), 100),
        Output::Indicator(Step { ack: None, action: Action::Report(true) })
    ));
    assert!(matches!(
        d.next_setting(Input::Indicator(Event::Reported), 100),
        Output::Indicator(Step {
            ack: Some((2, true)),
            action: Action::Ready(Setting::Indicator(true)),
        })
    ));
    match d.next_setting(Input::Dimmer(Event::Reported), 100) {
        Output::Dimmer(Step { ack, action: Action::Ready(setting) }) => {
            assert_eq!(ack, Some((1, flt(100.0))));
            assert_eq!(setting, Setting::Dimmer(DimmerProperty { brightness: flt(100.0) }));
        }
        other => panic!("{:?}", other),
    }
}

#[test]
fn indicator_decides_when_it_is_over() {
    let mut d = DimmerWithIndicator::<u32>::new(&CFG, None, None, 100);
    assert!(matches!(
        d.next_setting(Input::Dimmer(Event::Closed), 100),
        Output::DimmerDone
    ));
    assert!(matches!(
        d.next_setting(Input::Indicator(Event::Closed), 100),
        Output::Indicator(Step { ack: None, action: Action::Finished })
    ));
}

#[test]
fn updates_go_to_the_dimmer() {
    let mut d = DimmerWithIndicator::<u32>::new(&CFG, None, Some(true), 100);
    let prop = DimmerProperty { brightness: flt(20.0) };
    assert_eq!(d.report_due(&prop), Some(flt(20.0)));
    assert_eq!(d.report_update(prop, 100), None);
    assert_eq!(d.report_due(&prop), None);
    assert_eq!(d.indicator.get_last(), Some(&true));
}

#[test]
fn set_is_reset_as_a_whole() {
    let cfg = params(DevCfgType::Dimmer, None);
    let mut set = DeviceSet::<u32>::new(&cfg, None, Some(flt(1.0)), Some(true), 10);
    set.reset_state();
    match set {
        DeviceSet::Dimmer(d) => {
            assert!(matches!(d.dimmer.brightness.state, State::Unknown));
            assert!(matches!(d.indicator.state, State::Unknown));
        }
        DeviceSet::Switch(_) => panic!("not a dimmer"),
    }

    let cfg = params(DevCfgType::Outlet, None);
    let mut set = DeviceSet::<u32>::new(&cfg, Some(true), None, None, 10);
    set.reset_state();
    match set {
        DeviceSet::Switch(d) => assert!(matches!(d.state.state, State::Unknown)),
        DeviceSet::Dimmer(_) => panic!("not a switch"),
    }
}
