//! The driver for TP-Link switches, outlets and dimmers.

use vstd::prelude::*;

pub mod config;
pub mod device;
pub mod device_laws;

verus! {

} // verus!
