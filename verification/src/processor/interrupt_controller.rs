//! The interrupt master enable and the interrupt flags.
use vstd::prelude::*;

verus! {

/// The interrupt state of the processor.
pub struct InterruptController {
    pub master_enable: bool,
    pub interrupt_enable_flags: u8,
    pub interrupt_request_flags: u8,
}

impl InterruptController {
    /// Interrupts disabled, no interrupt enabled or requested.
    pub fn new() -> (r: InterruptController)
        ensures
            !r.master_enable,
            r.interrupt_enable_flags == 0,
            r.interrupt_request_flags == 0,
    {
        InterruptController { master_enable: false, interrupt_enable_flags: 0, interrupt_request_flags: 0 }
    }
}

} // verus!
