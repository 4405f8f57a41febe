//! The machine state: the single shared aggregate owning one instance of
//! every peripheral plus the top-level run/halt flag. Every operation that
//! touches hardware takes a reference to it — shared for reads, exclusive
//! for writes and ticks. It is created once at startup via an explicit
//! power-on initialization step per peripheral.

use vstd::prelude::*;

use crate::hardware::audio::Audio;
use crate::hardware::cpu::Processor;
use crate::hardware::graphics::Graphics;
use crate::hardware::input::Input;
use crate::hardware::memory::{spec_mem_power_on, Memory};
use crate::hardware::serial::Serial;
use crate::hardware::timer::{spec_power_on_timer, Timer};
use crate::hardware::HardwareInit;
use crate::options::Options;

verus! {

pub struct Context {
    pub options: Options,

    pub mem: Memory,

    pub cpu: Processor,
    pub gfx: Graphics,
    pub timer: Timer,
    pub input: Input,
    pub audio: Audio,
    pub serial: Serial,

    /// The scheduler's run/halt flag: true while the machine is Running,
    /// false once it is Halted. Halted is terminal for the process lifetime.
    pub running: bool,
}

/// Everything outside the timer circuit is unchanged: the timer's own state
/// and the processor's interrupt-flag register are the only parts of the
/// machine a timer operation may touch.
pub open spec fn unchanged_except_timer_and_irq(pre: Context, post: Context) -> bool {
    &&& post.options == pre.options
    &&& post.mem == pre.mem
    &&& post.gfx == pre.gfx
    &&& post.input == pre.input
    &&& post.audio == pre.audio
    &&& post.serial == pre.serial
    &&& post.running == pre.running
}

/// Everything outside the RAM-backed storage blocks is unchanged.
pub open spec fn unchanged_except_mem(pre: Context, post: Context) -> bool {
    &&& post.options == pre.options
    &&& post.cpu == pre.cpu
    &&& post.gfx == pre.gfx
    &&& post.timer == pre.timer
    &&& post.input == pre.input
    &&& post.audio == pre.audio
    &&& post.serial == pre.serial
    &&& post.running == pre.running
}

/// Everything outside the processor is unchanged.
pub open spec fn unchanged_except_cpu(pre: Context, post: Context) -> bool {
    &&& post.options == pre.options
    &&& post.mem == pre.mem
    &&& post.gfx == pre.gfx
    &&& post.timer == pre.timer
    &&& post.input == pre.input
    &&& post.audio == pre.audio
    &&& post.serial == pre.serial
    &&& post.running == pre.running
}

impl Context {
    /// Builds the machine and brings every peripheral to its power-on state,
    /// in a fixed order: memory, processor, graphics, timer, input, audio,
    /// serial. The machine starts Running.
    pub fn new(options: Options) -> (ctx: Context)
        ensures
            ctx.options == options,
            spec_mem_power_on(ctx.mem),
            ctx.timer == spec_power_on_timer(),
            ctx.cpu == (Processor { interrupt_flag: 0 }),
            ctx.running,
    {
        let mut ctx = Context {
            options,
            mem: Memory::new(),
            cpu: Processor { interrupt_flag: 0 },
            gfx: Graphics {  },
            timer: Timer::new(),
            input: Input {  },
            audio: Audio {  },
            serial: Serial {  },
            running: true,
        };
        Memory::init(&mut ctx);
        Processor::init(&mut ctx);
        Graphics::init(&mut ctx);
        Timer::init(&mut ctx);
        Input::init(&mut ctx);
        Audio::init(&mut ctx);
        Serial::init(&mut ctx);
        ctx
    }
}

} // verus!
