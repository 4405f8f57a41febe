//! The processor. Instruction decoding and execution are outside this core;
//! at this layer the processor contributes its storage for the shared
//! interrupt-flag register, through which every other peripheral requests an
//! interrupt over the normal memory-access path.

use vstd::prelude::*;

use crate::context::{unchanged_except_cpu, Context};
use crate::hardware::{Fault, HardwareInit, MemoryInterface, Tick};
use crate::io_regs::IO_IF;

verus! {

/// The timer's assigned bit in the interrupt-flag register.
pub const INT_TIMER_MASK: u8 = 0b0000_0100;

pub struct Processor {
    /// The interrupt-flag (pending) register, IF. Pure storage at this
    /// layer: peripherals set bits in it, consumption into the instruction
    /// stream is out of scope.
    pub interrupt_flag: u8,
}

/// The processor recognizes exactly the interrupt-flag register.
pub open spec fn spec_cpu_read(c: Context, a: u16) -> Result<u8, Fault> {
    if a == IO_IF {
        Ok(c.cpu.interrupt_flag)
    } else {
        Err(Fault { address: a })
    }
}

pub open spec fn spec_cpu_write_ok(
    pre: Context,
    a: u16,
    v: u8,
    post: Context,
    r: Result<(), Fault>,
) -> bool {
    if a == IO_IF {
        &&& unchanged_except_cpu(pre, post)
        &&& post.cpu == (Processor { interrupt_flag: v })
        &&& r == Ok::<(), Fault>(())
    } else {
        &&& post == pre
        &&& r == Err::<(), Fault>(Fault { address: a })
    }
}

impl HardwareInit for Processor {
    fn init(ctx: &mut Context)
        ensures
            final(ctx).cpu == (Processor { interrupt_flag: 0 }),
            unchanged_except_cpu(*old(ctx), *final(ctx)),
    {
        ctx.cpu = Processor { interrupt_flag: 0 };
    }
}

impl MemoryInterface for Processor {
    open spec fn access_inv(ctx: Context) -> bool {
        true
    }

    fn read(ctx: &Context, address: u16) -> (r: Result<u8, Fault>)
        ensures
            r == spec_cpu_read(*ctx, address),
    {
        if address == IO_IF {
            Ok(ctx.cpu.interrupt_flag)
        } else {
            Err(Fault { address })
        }
    }

    fn write(ctx: &mut Context, address: u16, value: u8) -> (r: Result<(), Fault>)
        ensures
            spec_cpu_write_ok(*old(ctx), address, value, *final(ctx), r),
    {
        if address == IO_IF {
            ctx.cpu = Processor { interrupt_flag: value };
            Ok(())
        } else {
            Err(Fault { address })
        }
    }
}

impl Tick for Processor {
    /// Instruction execution is out of scope: one machine cycle leaves the
    /// processor's state at this layer untouched.
    fn tick(ctx: &mut Context)
        ensures
            *final(ctx) == *old(ctx),
    {
    }
}

} // verus!
