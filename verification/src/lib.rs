//! Verified core of a home-automation driver framework.
//!
//! Drivers share their hardware with the outside world: a light bulb can be
//! set by this framework, and by the switch on the wall. The crate holds the
//! decisions that such drivers make (what to write to the backend, what to
//! hand to the hardware, whom to answer and how long to wait), each with a
//! contract. Everything that waits or talks to the outside belongs to the
//! application around it, which hands events in and carries actions out.

use vstd::prelude::*;

pub mod device;
pub mod driver;
pub mod error;
pub mod hue;
pub mod memory;
pub mod time;
pub mod tplink;

verus! {

} // verus!
