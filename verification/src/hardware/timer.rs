//! The timer circuit: the fully worked example of bit-exact hardware-edge
//! emulation. TIMA increments on the falling edge of the logical signal
//! `enable AND counter_bit(selected position)`, re-evaluated after every
//! mutation of the 16-bit free-running counter or of the control register —
//! not only during normal ticking. A direct write to DIV or TAC can
//! therefore cause a spurious tick, exactly as on real hardware.

use vstd::prelude::*;
use vstd::wrapping::u16_specs;

use crate::context::{unchanged_except_timer_and_irq, Context};
use crate::hardware::cpu::INT_TIMER_MASK;
use crate::hardware::{Fault, HardwareInit, MemoryInterface, Tick};
use crate::io_regs::{IO_DIV, IO_TAC, IO_TIMA, IO_TMA};

verus! {

/// The four selectable timer rates. Each selects a distinct bit position
/// within the 16-bit counter; from slowest to fastest wall-clock rate the
/// selections are bit 9, bit 3, bit 5 and bit 7.
#[derive(Debug, Clone, Copy, PartialEq, Eq, Structural)]
pub enum ClockSpeed {
    Every256,
    Every4,
    Every16,
    Every64,
}

/// The counter bit each rate selects.
pub open spec fn spec_tick_bit(s: ClockSpeed) -> u16 {
    match s {
        ClockSpeed::Every256 => 0x0200,  // bit 9
        ClockSpeed::Every4 => 0x0008,  // bit 3
        ClockSpeed::Every16 => 0x0020,  // bit 5
        ClockSpeed::Every64 => 0x0080,  // bit 7
    }
}

/// How each rate reads back in TAC bits 0-1.
pub open spec fn spec_speed_bits(s: ClockSpeed) -> u8 {
    match s {
        ClockSpeed::Every256 => 0b00,
        ClockSpeed::Every4 => 0b01,
        ClockSpeed::Every16 => 0b10,
        ClockSpeed::Every64 => 0b11,
    }
}

/// The rate selected by TAC bits 0-1.
pub open spec fn spec_speed_of_bits(bits: u8) -> ClockSpeed {
    if bits == 0b00 {
        ClockSpeed::Every256
    } else if bits == 0b01 {
        ClockSpeed::Every4
    } else if bits == 0b10 {
        ClockSpeed::Every16
    } else {
        ClockSpeed::Every64
    }
}

impl ClockSpeed {
    pub fn tick_bit(&self) -> (r: u16)
        ensures
            r == spec_tick_bit(*self),
    {
        match self {
            ClockSpeed::Every256 => 0x0200,  // bit 9
            ClockSpeed::Every4 => 0x0008,  // bit 3
            ClockSpeed::Every16 => 0x0020,  // bit 5
            ClockSpeed::Every64 => 0x0080,  // bit 7
        }
    }
}

/// The counter bit whose falling edge clocks the audio frame sequencer.
pub const DIV_APU_BIT: u16 = 0x1000;  // bit 12

pub struct Timer {
    /// The true 16-bit free-running system counter underlying DIV.
    pub system_timer: u16,

    /// TIMA, the main timer counter.
    pub timer_counter: u8,

    /// TMA, the value TIMA reloads from on overflow.
    pub timer_modulo: u8,

    /// TAC bit 2.
    pub enable: bool,

    /// TAC bits 0-1.
    pub clock_speed: ClockSpeed,

    /// The bit selected by the timer multiplexer in real hardware; always
    /// the bit that `clock_speed` selects.
    pub tick_bit: u16,
}

impl Timer {
    /// The multiplexer field mirrors the selected rate.
    pub open spec fn wf(self) -> bool {
        self.tick_bit == spec_tick_bit(self.clock_speed)
    }
}

/// The multiplexer-TAC-enable circuit: the signal whose falling edge clocks
/// TIMA.
pub open spec fn spec_timer_signal(t: Timer) -> bool {
    t.enable && (t.system_timer & t.tick_bit) != 0
}

/// The DIV-APU circuit: the signal whose falling edge clocks the audio frame
/// sequencer.
pub open spec fn spec_div_apu_signal(t: Timer) -> bool {
    (t.system_timer & DIV_APU_BIT) != 0
}

/// One TIMA increment: on 8-bit overflow, TIMA reloads from TMA (not from 0)
/// and the timer interrupt is requested; the second component reports the
/// overflow.
pub open spec fn spec_tima_increment(t: Timer) -> (Timer, bool) {
    if t.timer_counter == 0xFF {
        (Timer { timer_counter: t.timer_modulo, ..t }, true)
    } else {
        (Timer { timer_counter: (t.timer_counter + 1) as u8, ..t }, false)
    }
}

/// Resolution of the main falling edge after a mutation of the timer state:
/// if the multiplexed signal fell from true to false, TIMA is incremented
/// exactly once, and the interrupt-flag register gains the timer bit when
/// that increment overflowed.
pub open spec fn spec_edge_resolve(sig_before: bool, t: Timer, iflag: u8) -> (Timer, u8) {
    if sig_before && !spec_timer_signal(t) {
        let (t2, overflow) = spec_tima_increment(t);
        (
            t2,
            if overflow {
                iflag | INT_TIMER_MASK
            } else {
                iflag
            },
        )
    } else {
        (t, iflag)
    }
}

/// A TAC write: bit 2 is the enable, bits 0-1 select the rate, and the
/// multiplexer follows the new rate.
pub open spec fn spec_unpack_tac(t: Timer, value: u8) -> Timer {
    Timer {
        enable: (value & 0b100) != 0,
        clock_speed: spec_speed_of_bits(value & 0b11),
        tick_bit: spec_tick_bit(spec_speed_of_bits(value & 0b11)),
        ..t
    }
}

/// A TAC read-back: the unused bits 3-7 read as 1.
pub open spec fn spec_pack_tac(t: Timer) -> u8 {
    0b1111_1000 | (if t.enable {
        0b100u8
    } else {
        0u8
    }) | spec_speed_bits(t.clock_speed)
}

/// The four timer registers, as seen through the memory interface.
pub open spec fn spec_timer_read(c: Context, a: u16) -> Result<u8, Fault> {
    if a == IO_DIV {
        Ok((c.timer.system_timer >> 8) as u8)
    } else if a == IO_TIMA {
        Ok(c.timer.timer_counter)
    } else if a == IO_TMA {
        Ok(c.timer.timer_modulo)
    } else if a == IO_TAC {
        Ok(spec_pack_tac(c.timer))
    } else {
        Err(Fault { address: a })
    }
}

/// A write to one of the four timer registers: the new timer state and the
/// new interrupt-flag register. A DIV write of any value resets the full
/// 16-bit counter to 0, and a DIV or TAC write resolves the falling edge the
/// mutation may have caused.
pub open spec fn spec_timer_write(t: Timer, iflag: u8, a: u16, v: u8) -> (Timer, u8) {
    if a == IO_DIV {
        spec_edge_resolve(spec_timer_signal(t), Timer { system_timer: 0, ..t }, iflag)
    } else if a == IO_TIMA {
        (Timer { timer_counter: v, ..t }, iflag)
    } else if a == IO_TMA {
        (Timer { timer_modulo: v, ..t }, iflag)
    } else {
        spec_edge_resolve(spec_timer_signal(t), spec_unpack_tac(t, v), iflag)
    }
}

/// One machine cycle: the counter advances by 4 dots (wrapping), then the
/// falling edge is resolved exactly as for a register write.
pub open spec fn spec_timer_tick(t: Timer, iflag: u8) -> (Timer, u8) {
    spec_edge_resolve(
        spec_timer_signal(t),
        Timer { system_timer: u16_specs::wrapping_add(t.system_timer, 4), ..t },
        iflag,
    )
}

/// The timer's power-on state: the system counter powers on to a non-zero
/// value, the timer disabled at the slowest rate.
pub open spec fn spec_power_on_timer() -> Timer {
    Timer {
        system_timer: 0xAB00,
        timer_counter: 0,
        timer_modulo: 0,
        enable: false,
        clock_speed: ClockSpeed::Every256,
        tick_bit: 0x0200,
    }
}

impl Timer {
    /// The default-constructed timer: everything zeroed, the multiplexer on
    /// the slowest rate's bit. Power-on state is established separately by
    /// [`HardwareInit::init`].
    pub fn new() -> (t: Timer)
        ensures
            t == (Timer {
                system_timer: 0,
                timer_counter: 0,
                timer_modulo: 0,
                enable: false,
                clock_speed: ClockSpeed::Every256,
                tick_bit: 0x0200,
            }),
            t.wf(),
    {
        Timer {
            system_timer: 0,
            timer_counter: 0,
            timer_modulo: 0,
            enable: false,
            clock_speed: ClockSpeed::Every256,
            tick_bit: 0x0200,
        }
    }
}

impl HardwareInit for Timer {
    fn init(ctx: &mut Context)
        ensures
            final(ctx).timer == spec_power_on_timer(),
            final(ctx).cpu == old(ctx).cpu,
            unchanged_except_timer_and_irq(*old(ctx), *final(ctx)),
    {
        ctx.timer = Timer {
            system_timer: 0xAB00,
            timer_counter: 0,
            timer_modulo: 0,
            enable: false,
            clock_speed: ClockSpeed::Every256,
            tick_bit: 0x0200,
        };
    }
}

impl MemoryInterface for Timer {
    open spec fn access_inv(ctx: Context) -> bool {
        true
    }

    fn read(ctx: &Context, address: u16) -> (r: Result<u8, Fault>)
        ensures
            r == spec_timer_read(*ctx, address),
    {
        if address == IO_DIV {
            Ok((ctx.timer.system_timer >> 8) as u8)
        } else if address == IO_TIMA {
            Ok(ctx.timer.timer_counter)
        } else if address == IO_TMA {
            Ok(ctx.timer.timer_modulo)
        } else if address == IO_TAC {
            Ok(ctx.timer.pack_tac())
        } else {
            Err(Fault { address })
        }
    }

    fn write(ctx: &mut Context, address: u16, value: u8) -> (r: Result<(), Fault>)
        ensures
            unchanged_except_timer_and_irq(*old(ctx), *final(ctx)),
            IO_DIV <= address <= IO_TAC ==> ({
                let (t2, f2) = spec_timer_write(
                    old(ctx).timer,
                    old(ctx).cpu.interrupt_flag,
                    address,
                    value,
                );
                &&& final(ctx).timer == t2
                &&& final(ctx).cpu.interrupt_flag == f2
                &&& r == Ok::<(), Fault>(())
            }),
            !(IO_DIV <= address <= IO_TAC) ==> *final(ctx) == *old(ctx) && r == Err::<(), Fault>(
                Fault { address },
            ),
    {
        if address == IO_DIV {
            let sig = ctx.timer.timer_tick_bit();
            let apu = ctx.timer.div_apu_bit();
            ctx.timer.system_timer = 0;
            let _event = Timer::maybe_causes_tick(ctx, sig, apu);
            Ok(())
        } else if address == IO_TIMA {
            ctx.timer.timer_counter = value;
            Ok(())
        } else if address == IO_TMA {
            ctx.timer.timer_modulo = value;
            Ok(())
        } else if address == IO_TAC {
            let sig = ctx.timer.timer_tick_bit();
            let apu = ctx.timer.div_apu_bit();
            ctx.timer.unpack_tac(value);
            let _event = Timer::maybe_causes_tick(ctx, sig, apu);
            Ok(())
        } else {
            Err(Fault { address })
        }
    }
}

impl Tick for Timer {
    fn tick(ctx: &mut Context)
        ensures
            unchanged_except_timer_and_irq(*old(ctx), *final(ctx)),
            ({
                let (t2, f2) = spec_timer_tick(old(ctx).timer, old(ctx).cpu.interrupt_flag);
                final(ctx).timer == t2 && final(ctx).cpu.interrupt_flag == f2
            }),
    {
        let sig = ctx.timer.timer_tick_bit();
        let apu = ctx.timer.div_apu_bit();
        // One machine cycle is 4 dots; wraparound of the free-running counter
        // is expected hardware behaviour.
        ctx.timer.system_timer = ctx.timer.system_timer.wrapping_add(4);
        let _event = Timer::maybe_causes_tick(ctx, sig, apu);
    }
}

impl Timer {
    /// Resolves the edges after a mutation of the timer state. The caller
    /// samples both edge signals, applies its mutation, then calls this: no
    /// matter how the state changed, a falling edge of the multiplexed
    /// signal between the two samples causes exactly one TIMA tick. The
    /// returned flag reports a falling edge of the DIV-APU signal — an
    /// outward event for the audio frame sequencer to consume, not a
    /// register write; the audio unit models no behaviour at this layer, so
    /// callers currently discard it.
    fn maybe_causes_tick(ctx: &mut Context, sig_before: bool, apu_before: bool) -> (apu_edge:
        bool)
        ensures
            unchanged_except_timer_and_irq(*old(ctx), *final(ctx)),
            ({
                let (t2, f2) = spec_edge_resolve(
                    sig_before,
                    old(ctx).timer,
                    old(ctx).cpu.interrupt_flag,
                );
                final(ctx).timer == t2 && final(ctx).cpu.interrupt_flag == f2
            }),
            apu_edge == (apu_before && !spec_div_apu_signal(old(ctx).timer)),
    {
        let sig_after = ctx.timer.timer_tick_bit();
        let apu_after = ctx.timer.div_apu_bit();

        if sig_before && !sig_after {
            // No matter how anything changed, a falling edge between these
            // two samples causes a timer tick.
            Timer::timer_tick(ctx);
        }
        apu_before && !apu_after
    }

    /// One TIMA increment, with reload from TMA and an interrupt request on
    /// overflow. The interrupt is raised on the shared interrupt-flag
    /// register, not on the timer's private storage.
    fn timer_tick(ctx: &mut Context)
        ensures
            unchanged_except_timer_and_irq(*old(ctx), *final(ctx)),
            ({
                let (t2, overflow) = spec_tima_increment(old(ctx).timer);
                &&& final(ctx).timer == t2
                &&& final(ctx).cpu.interrupt_flag == (if overflow {
                    old(ctx).cpu.interrupt_flag | INT_TIMER_MASK
                } else {
                    old(ctx).cpu.interrupt_flag
                })
            }),
    {
        if ctx.timer.timer_counter == 0xFF {
            ctx.timer.timer_counter = ctx.timer.timer_modulo;
            ctx.cpu.interrupt_flag = ctx.cpu.interrupt_flag | INT_TIMER_MASK;
        } else {
            ctx.timer.timer_counter = ctx.timer.timer_counter + 1;
        }
    }

    /// TAC as it reads back: unused bits as 1, the enable in bit 2, the rate
    /// in bits 0-1.
    fn pack_tac(&self) -> (r: u8)
        ensures
            r == spec_pack_tac(*self),
    {
        let enable_bit: u8 = if self.enable {
            0b100
        } else {
            0
        };
        let speed_bits: u8 = match self.clock_speed {
            ClockSpeed::Every256 => 0b00,
            ClockSpeed::Every4 => 0b01,
            ClockSpeed::Every16 => 0b10,
            ClockSpeed::Every64 => 0b11,
        };
        0b1111_1000 | enable_bit | speed_bits
    }

    /// Applies a TAC write and realigns the multiplexer with the selected
    /// rate.
    fn unpack_tac(&mut self, value: u8)
        ensures
            *final(self) == spec_unpack_tac(*old(self), value),
            final(self).wf(),
    {
        self.enable = (value & 0b100) != 0;
        self.clock_speed = match value & 0b11 {
            0b00 => ClockSpeed::Every256,
            0b01 => ClockSpeed::Every4,
            0b10 => ClockSpeed::Every16,
            _ => ClockSpeed::Every64,
        };
        self.tick_bit = self.clock_speed.tick_bit();
    }

    /// Samples the multiplexer-TAC-enable circuit.
    fn timer_tick_bit(&self) -> (r: bool)
        ensures
            r == spec_timer_signal(*self),
    {
        ((self.system_timer & self.tick_bit) != 0) && self.enable
    }

    /// Samples the DIV-APU circuit.
    fn div_apu_bit(&self) -> (r: bool)
        ensures
            r == spec_div_apu_signal(*self),
    {
        (self.system_timer & DIV_APU_BIT) != 0
    }
}

/// Writing any value to DIV resets the full 16-bit counter to 0, so a DIV
/// read immediately after the write returns 0, regardless of the value
/// written. The write may still cause one spurious TIMA tick, but never
/// moves the counter itself.
pub proof fn lemma_div_write_resets_counter(c: Context, value: u8)
    ensures
        ({
            let (t2, f2) = spec_timer_write(c.timer, c.cpu.interrupt_flag, IO_DIV, value);
            &&& t2.system_timer == 0
            &&& spec_timer_read(
                Context { timer: t2, cpu: crate::hardware::cpu::Processor { interrupt_flag: f2 }, ..c },
                IO_DIV,
            ) == Ok::<u8, Fault>(0)
        }),
{
    assert(((0u16 >> 8) as u8) == 0) by (bit_vector);
}

/// Disabling the timer while the multiplexed signal is high causes an
/// immediate synthetic falling edge and exactly one TIMA increment — with
/// reload from TMA and an interrupt request if that increment overflowed.
pub proof fn lemma_disable_mid_count(c: Context, value: u8)
    requires
        spec_timer_signal(c.timer),
        value & 0b100 == 0,
    ensures
        ({
            let (t2, f2) = spec_timer_write(c.timer, c.cpu.interrupt_flag, IO_TAC, value);
            &&& t2.timer_counter == (if c.timer.timer_counter == 0xFF {
                c.timer.timer_modulo
            } else {
                (c.timer.timer_counter + 1) as u8
            })
            &&& !t2.enable
            &&& c.timer.timer_counter == 0xFF ==> f2 == (c.cpu.interrupt_flag | INT_TIMER_MASK)
            &&& c.timer.timer_counter != 0xFF ==> f2 == c.cpu.interrupt_flag
        }),
{
}

/// While the timer is disabled, cycle ticks never increment TIMA, and the
/// timer stays disabled until re-enabled through TAC.
pub proof fn lemma_disabled_timer_no_increment(t: Timer, iflag: u8)
    requires
        !t.enable,
    ensures
        ({
            let (t2, f2) = spec_timer_tick(t, iflag);
            &&& t2.timer_counter == t.timer_counter
            &&& !t2.enable
            &&& f2 == iflag
        }),
{
}

} // verus!
