//! The driver for Philips Hue lights.

use vstd::prelude::*;

pub mod color;
pub mod device_traits;
pub mod light_laws;
pub mod payload;

verus! {

} // verus!
