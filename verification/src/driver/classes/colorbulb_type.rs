//! Color LED bulbs.

use crate::device::ColorType;
use crate::driver::classes::{
    error_device, overridable_device, register_error, register_overridable,
};
use crate::driver::overridable_device::{length, OverridableDevice, OverrideConfig, State};
use crate::driver::ro_device::ReadOnlyDevice;
use crate::driver::{chars, views, Registration, RegistrationView};
use crate::time::Instant;
use vstd::prelude::*;

verus! {

/// The devices of a color bulb.
#[derive(Debug)]
pub struct ColorBulb<S> {
    /// `true` when the driver has a problem communicating with the hardware.
    pub error: ReadOnlyDevice<bool>,
    /// The color of the bulb. Its alpha conveys the brightness: 0 is off and 255
    /// is full brightness.
    pub color: OverridableDevice<ColorType, S>,
}

/// The devices that a color bulb asks for.
pub open spec fn colorbulb_devices(
    subpath: Option<Seq<char>>,
    cfg: OverrideConfig,
    max_history: Option<usize>,
) -> Seq<RegistrationView> {
    seq![
        error_device(subpath, max_history),
        overridable_device("color"@, subpath, None, cfg, max_history),
    ]
}

impl<S> ColorBulb<S> {
    /// What `new` gives.
    pub open spec fn fresh(cfg: OverrideConfig, last: Option<ColorType>, now: Instant) -> Self {
        ColorBulb {
            error: ReadOnlyDevice { last: None },
            color: OverridableDevice::fresh(last, cfg.override_duration, cfg.envelope, now),
        }
    }

    /// The devices to be registered, in this order; `next_registration` goes
    /// through them.
    pub fn register_devices<'a>(
        subpath: Option<&'a str>,
        cfg: &OverrideConfig,
        max_history: Option<usize>,
    ) -> (r: Vec<Registration<'a>>)
        ensures
            views(r@) == colorbulb_devices(chars(subpath), *cfg, max_history),
    {
        let mut r: Vec<Registration<'a>> = Vec::new();
        r.push(register_error(subpath, max_history));
        r.push(register_overridable("color", subpath, None, cfg, max_history));
        assert(views(r@) =~= colorbulb_devices(chars(subpath), *cfg, max_history));
        r
    }

    /// A color bulb whose devices have been registered. `last` is the color that
    /// the backend remembers.
    pub fn new(cfg: &OverrideConfig, last: Option<ColorType>, now: Instant) -> (r: Self)
        requires
            last is Some ==> now + length(cfg.envelope) <= Instant::MAX,
        ensures
            r == Self::fresh(*cfg, last, now),
            r.error.last is None,
            r.color.override_duration == cfg.override_duration,
            r.color.envelope == length(cfg.envelope),
            r.color.state == match last {
                Some(v) => r.color.applying_new(v, v, None, now),
                None => State::Unknown,
            },
    {
        ColorBulb {
            error: ReadOnlyDevice::new(),
            color: OverridableDevice::new(last, cfg.override_duration, cfg.envelope, now),
        }
    }

    /// Forgets all that is known of the hardware.
    pub fn reset_state(&mut self)
        ensures
            final(self).error == old(self).error,
            final(self).color == old(self).color.with(State::Unknown),
    {
        self.color.reset_state();
    }
}

} // verus!
