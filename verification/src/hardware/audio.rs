//! The audio unit. Waveform and channel synthesis are outside this core; the
//! unit participates only as a peripheral at the interface boundary. It
//! backs no storage yet, so every access the dispatcher routes to it is a
//! protocol violation.

use vstd::prelude::*;

use crate::context::Context;
use crate::hardware::{Fault, HardwareInit, MemoryInterface, Tick};

verus! {

pub struct Audio {}

/// The audio unit recognizes no address at this layer.
pub open spec fn spec_audio_read(c: Context, a: u16) -> Result<u8, Fault> {
    Err(Fault { address: a })
}

impl HardwareInit for Audio {
    fn init(ctx: &mut Context)
        ensures
            *final(ctx) == *old(ctx),
    {
        ctx.audio = Audio {  };
    }
}

impl MemoryInterface for Audio {
    open spec fn access_inv(ctx: Context) -> bool {
        true
    }

    fn read(ctx: &Context, address: u16) -> (r: Result<u8, Fault>)
        ensures
            r == spec_audio_read(*ctx, address),
    {
        Err(Fault { address })
    }

    fn write(ctx: &mut Context, address: u16, value: u8) -> (r: Result<(), Fault>)
        ensures
            *final(ctx) == *old(ctx),
            r == Err::<(), Fault>(Fault { address }),
    {
        Err(Fault { address })
    }
}

impl Tick for Audio {
    fn tick(ctx: &mut Context)
        ensures
            *final(ctx) == *old(ctx),
    {
    }
}

} // verus!
