//! The configuration of the driver.

use vstd::prelude::*;

verus! {

/// The kind of hardware.
#[derive(Clone, Copy, Debug, PartialEq, Eq, Structural)]
pub enum DevCfgType {
    Switch,
    Dimmer,
    Outlet,
}

/// What the user configures for an instance of the driver.
#[derive(Clone, Copy, Debug, PartialEq, Eq, Structural)]
pub struct Params {
    pub dev_type: DevCfgType,
    /// After how many minutes an override ends. `None` is never.
    pub override_timeout: Option<u64>,
}

} // verus!
