//! The driver for devices that live in memory.

use vstd::prelude::*;

pub mod config;
pub mod config_laws;
pub mod drv_memory;
pub mod poll_laws;

verus! {

} // verus!
