//! Infrared receiver.

use vstd::prelude::*;

verus! {

/// The infrared receiver attached to one pin of the FPIOA.
pub struct IRrev {
    pub pin: usize,
}

impl IRrev {
    pub fn new(pin: usize) -> (r: Self)
        ensures
            r.pin == pin,
    {
        Self { pin }
    }
}

} // verus!
