//! Execution core of a DMG-class hand-held console emulator: a unified 16-bit
//! address space partitioned into named regions, byte-addressable storage
//! blocks bound to those regions, a polymorphic peripheral contract
//! (power-on initialization, memory access, per-cycle advance), a
//! machine-cycle scheduler that steps every peripheral in lockstep, and the
//! system timer as the fully worked example of cycle-accurate falling-edge
//! circuit emulation.

pub mod context;
pub mod hardware;
pub mod io_regs;
pub mod options;
pub mod regions;

use vstd::prelude::*;

use crate::context::{unchanged_except_timer_and_irq, Context};
use crate::hardware::audio::Audio;
use crate::hardware::cpu::Processor;
use crate::hardware::graphics::Graphics;
use crate::hardware::input::Input;
use crate::hardware::serial::Serial;
use crate::hardware::timer::{spec_timer_tick, Timer};
use crate::hardware::Tick;
use crate::options::Options;

verus! {

/// One scheduler step: every peripheral advances exactly one machine cycle
/// (4 dots), in this fixed, deterministic order: processor, graphics, timer,
/// input, audio, serial. Peripherals observe each other's interrupt raising
/// within the same cycle boundary through the shared machine state. At this
/// layer only the timer circuit has per-cycle behaviour, so one step amounts
/// to one timer cycle.
pub fn step(ctx: &mut Context)
    ensures
        unchanged_except_timer_and_irq(*old(ctx), *final(ctx)),
        ({
            let (t2, f2) = spec_timer_tick(old(ctx).timer, old(ctx).cpu.interrupt_flag);
            final(ctx).timer == t2 && final(ctx).cpu.interrupt_flag == f2
        }),
{
    Processor::tick(ctx);
    Graphics::tick(ctx);
    Timer::tick(ctx);
    Input::tick(ctx);
    Audio::tick(ctx);
    Serial::tick(ctx);
}

/// Brings the machine to its power-on state and drives the machine-cycle
/// scheduler until the machine halts. Halting is terminal: nothing resumes
/// a halted machine. No component at this layer requests continued
/// execution, so the external stop takes effect after the first cycle.
pub fn run(options: Options) {
    let mut ctx = Context::new(options);

    while ctx.running
        decreases (if ctx.running {
            1int
        } else {
            0int
        }),
    {
        step(&mut ctx);
        ctx.running = false;
    }
}

} // verus!
