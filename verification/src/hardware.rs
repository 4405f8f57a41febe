//! The peripheral capability contract. Every hardware unit exposes three
//! independent capabilities: power-on initialization, memory access through
//! the address dispatcher, and a per-machine-cycle advance. All of them act
//! on the one shared machine state.

use vstd::prelude::*;

use crate::context::Context;

pub mod audio;
pub mod cpu;
pub mod graphics;
pub mod input;
pub mod memory;
pub mod serial;
pub mod timer;

verus! {

/// A protocol violation: an access was routed to a peripheral for an address
/// inside its claimed range that the peripheral itself does not recognize.
/// This indicates a bug in the region table, never anticipated hardware
/// behaviour, and is fatal to the machine — unlike an access to an unmapped
/// address, which is expected open-bus behaviour and recoverable.
#[derive(Debug, Clone, Copy, PartialEq, Eq, Structural)]
pub struct Fault {
    /// The address whose access was misrouted.
    pub address: u16,
}

/// Power-on initialization. Real hardware powers on with specific non-zero
/// register and counter values, so this is distinct from default
/// construction; the run configuration may alter what the power-on state is.
pub trait HardwareInit {
    fn init(ctx: &mut Context);
}

/// Memory access, invoked only via the address dispatcher, operating on the
/// unit's own state inside the shared machine state. A unit that recognizes
/// none of the addresses routed to it reports every access as a [`Fault`].
pub trait MemoryInterface {
    /// What the unit assumes of the machine state before any access.
    spec fn access_inv(ctx: Context) -> bool;

    fn read(ctx: &Context, address: u16) -> (r: Result<u8, Fault>)
        requires
            Self::access_inv(*ctx),
    ;

    fn write(ctx: &mut Context, address: u16, value: u8) -> (r: Result<(), Fault>)
        requires
            Self::access_inv(*old(ctx)),
    ;
}

/// Advances the unit by exactly one machine cycle (4 elementary clock
/// pulses), using only the unit's own prior state and whatever bus-visible
/// side effects (interrupt requests) the unit itself is entitled to raise.
pub trait Tick {
    fn tick(ctx: &mut Context);
}

} // verus!
