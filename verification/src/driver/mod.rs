//! What drivers are built from.

use crate::time::Duration;
use vstd::prelude::*;

pub mod classes;
pub mod overridable_device;
pub mod override_laws;
pub mod reading_laws;
pub mod registering;
pub mod ro_device;
pub mod setting_laws;

verus! {

/// The kind of channel that a device is registered with.
#[derive(Clone, Copy, Debug, PartialEq, Eq, Structural)]
pub enum Channel {
    /// The driver reports readings.
    ReadOnly,
    /// The driver takes settings and reports what came of them.
    ReadWrite,
    /// The driver reports readings and takes settings, and so do others.
    Overridable { override_duration: Option<Duration>, envelope: Option<Duration> },
}

/// A device that a driver asks for.
#[derive(Clone, Copy, Debug)]
pub struct Registration<'a> {
    pub name: &'a str,
    pub subpath: Option<&'a str>,
    pub units: Option<&'static str>,
    pub channel: Channel,
    pub max_history: Option<usize>,
}

/// A `Registration` in terms of the characters of its strings.
#[verifier::ext_equal]
pub struct RegistrationView {
    pub name: Seq<char>,
    pub subpath: Option<Seq<char>>,
    pub units: Option<Seq<char>>,
    pub channel: Channel,
    pub max_history: Option<usize>,
}

/// The characters of a string, if there is one.
pub open spec fn chars(s: Option<&str>) -> Option<Seq<char>> {
    match s {
        Some(s) => Some(s@),
        None => None,
    }
}

impl<'a> View for Registration<'a> {
    type V = RegistrationView;

    open spec fn view(&self) -> RegistrationView {
        RegistrationView {
            name: self.name@,
            subpath: chars(self.subpath),
            units: chars(self.units),
            channel: self.channel,
            max_history: self.max_history,
        }
    }
}

/// The devices of a list, in its order.
pub open spec fn views(list: Seq<Registration<'_>>) -> Seq<RegistrationView> {
    list.map_values(|r: Registration<'_>| r@)
}

} // verus!
