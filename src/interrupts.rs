//! Binding of the IPC interrupt line to the modem firmware's handler.

use vstd::prelude::*;

verus! {

/// Interrupt number of the IPC peripheral.
pub const IPC_INTERRUPT: u16 = 42;

/// The handler bound to the IPC interrupt line; it forwards every interrupt
/// to the modem firmware.
pub struct InterruptHandler {
    _private: (),
}

impl InterruptHandler {
    pub fn new() -> (r: InterruptHandler) {
        InterruptHandler { _private: () }
    }

    /// The byte written to the NVIC priority register for priority `level`.
    /// The NVIC implements three priority bits, the top three of the byte.
    pub fn nvic_priority(level: u8) -> (r: u8)
        requires
            level < 8,
        ensures
            r == level * 32,
            r as int % 32 == 0,
    {
        proof {
            assert(level < 8 ==> level << 5u8 == level * 32) by (bit_vector);
        }
        level << 5u8
    }
}

} // verus!
