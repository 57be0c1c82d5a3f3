//! The device: the one place through which contexts and surfaces change.

use vstd::prelude::*;

verus! {

/// Creates contexts and surfaces and moves them through their lives.
///
/// The device performs no native call itself. Where an operation needs one, the
/// caller makes it and hands over what it reported.
#[derive(Clone, Copy, Debug)]
pub struct Device {}

impl Device {
    /// A device.
    pub fn new() -> (device: Device) {
        Device {  }
    }
}

} // verus!
