//! The bus's own RAM-backed regions and the address dispatcher: the sole
//! arbiter of the address space. Every bus access is routed, in a fixed
//! priority order, to exactly one owning peripheral or storage block, or
//! falls through to the open-bus behaviour of an unmapped address.

use vstd::prelude::*;

use crate::context::{unchanged_except_mem, Context};
use crate::hardware::audio::{spec_audio_read, Audio};
use crate::hardware::cpu::{spec_cpu_read, spec_cpu_write_ok, Processor};
use crate::hardware::graphics::{spec_graphics_read, Graphics};
use crate::hardware::input::{spec_input_read, Input};
use crate::hardware::serial::{spec_serial_read, Serial};
use crate::hardware::timer::{spec_timer_read, spec_timer_write, Timer};
use crate::hardware::{Fault, HardwareInit, MemoryInterface};
use crate::io_regs::{
    ALL_AUDIO_REGS_BEGIN, ALL_AUDIO_REGS_END, ALL_GRAPHICS_REGS_BEGIN, ALL_GRAPHICS_REGS_END,
    ALL_SERIAL_REGS_BEGIN, ALL_SERIAL_REGS_END, ALL_TIMER_REGS_BEGIN, ALL_TIMER_REGS_END, IO_IF,
    IO_JOYP,
};
use crate::regions::{
    MappedMemoryRegion, MemoryRegion, CART_RAM_BEGIN, CART_RAM_END, ECHO_RAM_BEGIN, ECHO_RAM_END,
    HIGH_RAM_BEGIN, HIGH_RAM_END, OAM_BEGIN, OAM_END, ROM_SPACE_BEGIN, ROM_SPACE_END, VRAM_BEGIN,
    VRAM_END, WORK_RAM_BEGIN, WORK_RAM_END,
};

verus! {

/// The offset by which echo RAM mirrors work RAM: incomplete address
/// decoding on real hardware aliases the two windows.
pub const ECHO_RAM_OFFSET: u16 = 0x2000;

/// Where the dispatcher routes one bus access: one owning memory class or
/// register window, or the unmapped fallback.
#[derive(Debug, Clone, Copy, PartialEq, Eq, Structural)]
pub enum DispatchTarget {
    RomSpace,
    Vram,
    CartRam,
    WorkRam,
    EchoRam,
    Oam,
    HighRam,
    Joypad,
    SerialRegs,
    TimerRegs,
    InterruptFlag,
    AudioRegs,
    GraphicsRegs,
    Unmapped,
}

/// The address range each target claims; the unmapped fallback claims none.
pub open spec fn spec_target_claims(t: DispatchTarget, a: u16) -> bool {
    match t {
        DispatchTarget::RomSpace => ROM_SPACE_BEGIN <= a <= ROM_SPACE_END,
        DispatchTarget::Vram => VRAM_BEGIN <= a <= VRAM_END,
        DispatchTarget::CartRam => CART_RAM_BEGIN <= a <= CART_RAM_END,
        DispatchTarget::WorkRam => WORK_RAM_BEGIN <= a <= WORK_RAM_END,
        DispatchTarget::EchoRam => ECHO_RAM_BEGIN <= a <= ECHO_RAM_END,
        DispatchTarget::Oam => OAM_BEGIN <= a <= OAM_END,
        DispatchTarget::HighRam => HIGH_RAM_BEGIN <= a <= HIGH_RAM_END,
        DispatchTarget::Joypad => a == IO_JOYP,
        DispatchTarget::SerialRegs => ALL_SERIAL_REGS_BEGIN <= a <= ALL_SERIAL_REGS_END,
        DispatchTarget::TimerRegs => ALL_TIMER_REGS_BEGIN <= a <= ALL_TIMER_REGS_END,
        DispatchTarget::InterruptFlag => a == IO_IF,
        DispatchTarget::AudioRegs => ALL_AUDIO_REGS_BEGIN <= a <= ALL_AUDIO_REGS_END,
        DispatchTarget::GraphicsRegs => ALL_GRAPHICS_REGS_BEGIN <= a <= ALL_GRAPHICS_REGS_END,
        DispatchTarget::Unmapped => false,
    }
}

/// Address-range membership, evaluated in the dispatcher's fixed priority
/// order.
pub open spec fn spec_dispatch(a: u16) -> DispatchTarget {
    if ROM_SPACE_BEGIN <= a <= ROM_SPACE_END {
        DispatchTarget::RomSpace
    } else if VRAM_BEGIN <= a <= VRAM_END {
        DispatchTarget::Vram
    } else if CART_RAM_BEGIN <= a <= CART_RAM_END {
        DispatchTarget::CartRam
    } else if WORK_RAM_BEGIN <= a <= WORK_RAM_END {
        DispatchTarget::WorkRam
    } else if ECHO_RAM_BEGIN <= a <= ECHO_RAM_END {
        DispatchTarget::EchoRam
    } else if OAM_BEGIN <= a <= OAM_END {
        DispatchTarget::Oam
    } else if HIGH_RAM_BEGIN <= a <= HIGH_RAM_END {
        DispatchTarget::HighRam
    } else if a == IO_JOYP {
        DispatchTarget::Joypad
    } else if ALL_SERIAL_REGS_BEGIN <= a <= ALL_SERIAL_REGS_END {
        DispatchTarget::SerialRegs
    } else if ALL_TIMER_REGS_BEGIN <= a <= ALL_TIMER_REGS_END {
        DispatchTarget::TimerRegs
    } else if a == IO_IF {
        DispatchTarget::InterruptFlag
    } else if ALL_AUDIO_REGS_BEGIN <= a <= ALL_AUDIO_REGS_END {
        DispatchTarget::AudioRegs
    } else if ALL_GRAPHICS_REGS_BEGIN <= a <= ALL_GRAPHICS_REGS_END {
        DispatchTarget::GraphicsRegs
    } else {
        DispatchTarget::Unmapped
    }
}

/// Routes one address, exactly as [`spec_dispatch`] describes.
pub fn dispatch(address: u16) -> (t: DispatchTarget)
    ensures
        t == spec_dispatch(address),
{
    if address <= ROM_SPACE_END {
        DispatchTarget::RomSpace
    } else if VRAM_BEGIN <= address && address <= VRAM_END {
        DispatchTarget::Vram
    } else if CART_RAM_BEGIN <= address && address <= CART_RAM_END {
        DispatchTarget::CartRam
    } else if WORK_RAM_BEGIN <= address && address <= WORK_RAM_END {
        DispatchTarget::WorkRam
    } else if ECHO_RAM_BEGIN <= address && address <= ECHO_RAM_END {
        DispatchTarget::EchoRam
    } else if OAM_BEGIN <= address && address <= OAM_END {
        DispatchTarget::Oam
    } else if HIGH_RAM_BEGIN <= address && address <= HIGH_RAM_END {
        DispatchTarget::HighRam
    } else if address == IO_JOYP {
        DispatchTarget::Joypad
    } else if ALL_SERIAL_REGS_BEGIN <= address && address <= ALL_SERIAL_REGS_END {
        DispatchTarget::SerialRegs
    } else if ALL_TIMER_REGS_BEGIN <= address && address <= ALL_TIMER_REGS_END {
        DispatchTarget::TimerRegs
    } else if address == IO_IF {
        DispatchTarget::InterruptFlag
    } else if ALL_AUDIO_REGS_BEGIN <= address && address <= ALL_AUDIO_REGS_END {
        DispatchTarget::AudioRegs
    } else if ALL_GRAPHICS_REGS_BEGIN <= address && address <= ALL_GRAPHICS_REGS_END {
        DispatchTarget::GraphicsRegs
    } else {
        DispatchTarget::Unmapped
    }
}

/// Every address is claimed by at most one target, and the dispatcher routes
/// it to its claimant, or to the unmapped fallback exactly when no target
/// claims it: the region ranges are pairwise non-overlapping.
pub proof fn lemma_dispatch_exclusive(a: u16)
    ensures
        forall|t1: DispatchTarget, t2: DispatchTarget|
            spec_target_claims(t1, a) && spec_target_claims(t2, a) ==> t1 == t2,
        forall|t: DispatchTarget| spec_target_claims(t, a) ==> spec_dispatch(a) == t,
        (spec_dispatch(a) == DispatchTarget::Unmapped) <==> (forall|t: DispatchTarget|
            !spec_target_claims(t, a)),
{
    if spec_dispatch(a) != DispatchTarget::Unmapped {
        // The dispatcher's own result is the witness claimant.
        assert(spec_target_claims(spec_dispatch(a), a));
    }
}

/// The bus's own RAM-backed storage: video RAM, work RAM, sprite/object
/// memory, and high RAM (which also holds the interrupt-enable register).
pub struct Memory {
    pub vram: MappedMemoryRegion,
    pub wram: MappedMemoryRegion,
    pub oam: MappedMemoryRegion,
    pub hram: MappedMemoryRegion,
}

impl Memory {
    /// Each storage block is bound to its memory class with a full-size
    /// buffer.
    pub open spec fn wf(self) -> bool {
        &&& self.vram.wf() && self.vram.region == (MemoryRegion {
            begin: VRAM_BEGIN,
            end: VRAM_END,
        })
        &&& self.wram.wf() && self.wram.region == (MemoryRegion {
            begin: WORK_RAM_BEGIN,
            end: WORK_RAM_END,
        })
        &&& self.oam.wf() && self.oam.region == (MemoryRegion { begin: OAM_BEGIN, end: OAM_END })
        &&& self.hram.wf() && self.hram.region == (MemoryRegion {
            begin: HIGH_RAM_BEGIN,
            end: HIGH_RAM_END,
        })
    }

    pub fn new() -> (m: Memory)
        ensures
            spec_mem_power_on(m),
    {
        Memory {
            vram: MappedMemoryRegion::new(MemoryRegion::new(VRAM_BEGIN, VRAM_END)),
            wram: MappedMemoryRegion::new(MemoryRegion::new(WORK_RAM_BEGIN, WORK_RAM_END)),
            oam: MappedMemoryRegion::new(MemoryRegion::new(OAM_BEGIN, OAM_END)),
            hram: MappedMemoryRegion::new(MemoryRegion::new(HIGH_RAM_BEGIN, HIGH_RAM_END)),
        }
    }
}

/// The power-on state of the bus's storage: well formed, every byte at the
/// floating-bus value 0xFF.
pub open spec fn spec_mem_power_on(m: Memory) -> bool {
    &&& m.wf()
    &&& forall|i: int| 0 <= i < m.vram@.len() ==> m.vram@[i] == 0xFF
    &&& forall|i: int| 0 <= i < m.wram@.len() ==> m.wram@[i] == 0xFF
    &&& forall|i: int| 0 <= i < m.oam@.len() ==> m.oam@[i] == 0xFF
    &&& forall|i: int| 0 <= i < m.hram@.len() ==> m.hram@[i] == 0xFF
}

/// What a read of each address yields: storage bytes for the RAM classes
/// (echo RAM reading through to work RAM), the owning peripheral's register
/// for the I/O windows, 0xFF for an unmapped address, and a fault where the
/// routed unit is out of scope at this layer.
pub open spec fn spec_mem_read(c: Context, a: u16) -> Result<u8, Fault> {
    match spec_dispatch(a) {
        // Relaying to the cartridge is out of scope at this layer.
        DispatchTarget::RomSpace => Err(Fault { address: a }),
        DispatchTarget::Vram => Ok(c.mem.vram@[a - VRAM_BEGIN]),
        DispatchTarget::CartRam => Err(Fault { address: a }),
        DispatchTarget::WorkRam => Ok(c.mem.wram@[a - WORK_RAM_BEGIN]),
        DispatchTarget::EchoRam => Ok(c.mem.wram@[a - ECHO_RAM_OFFSET - WORK_RAM_BEGIN]),
        DispatchTarget::Oam => Ok(c.mem.oam@[a - OAM_BEGIN]),
        DispatchTarget::HighRam => Ok(c.mem.hram@[a - HIGH_RAM_BEGIN]),
        DispatchTarget::Joypad => spec_input_read(c, a),
        DispatchTarget::SerialRegs => spec_serial_read(c, a),
        DispatchTarget::TimerRegs => spec_timer_read(c, a),
        DispatchTarget::InterruptFlag => spec_cpu_read(c, a),
        DispatchTarget::AudioRegs => spec_audio_read(c, a),
        DispatchTarget::GraphicsRegs => spec_graphics_read(c, a),
        DispatchTarget::Unmapped => Ok(0xFF),
    }
}

/// Exactly one storage block changed, by one byte-update at offset `i`.
pub open spec fn spec_vram_updated(pre: Memory, post: Memory, i: int, v: u8) -> bool {
    &&& post.wram == pre.wram
    &&& post.oam == pre.oam
    &&& post.hram == pre.hram
    &&& post.vram.region == pre.vram.region
    &&& post.vram@ == pre.vram@.update(i, v)
}

pub open spec fn spec_wram_updated(pre: Memory, post: Memory, i: int, v: u8) -> bool {
    &&& post.vram == pre.vram
    &&& post.oam == pre.oam
    &&& post.hram == pre.hram
    &&& post.wram.region == pre.wram.region
    &&& post.wram@ == pre.wram@.update(i, v)
}

pub open spec fn spec_oam_updated(pre: Memory, post: Memory, i: int, v: u8) -> bool {
    &&& post.vram == pre.vram
    &&& post.wram == pre.wram
    &&& post.hram == pre.hram
    &&& post.oam.region == pre.oam.region
    &&& post.oam@ == pre.oam@.update(i, v)
}

pub open spec fn spec_hram_updated(pre: Memory, post: Memory, i: int, v: u8) -> bool {
    &&& post.vram == pre.vram
    &&& post.wram == pre.wram
    &&& post.oam == pre.oam
    &&& post.hram.region == pre.hram.region
    &&& post.hram@ == pre.hram@.update(i, v)
}

/// What a write to each address does: a byte-update in the owning storage
/// block (echo RAM writing through to work RAM), the owning peripheral's
/// register effect for the I/O windows, a silent discard for an unmapped
/// address, and a fault — with the machine untouched — where the routed
/// unit is out of scope at this layer.
pub open spec fn spec_mem_write_ok(
    pre: Context,
    a: u16,
    v: u8,
    post: Context,
    r: Result<(), Fault>,
) -> bool {
    match spec_dispatch(a) {
        DispatchTarget::RomSpace => post == pre && r == Err::<(), Fault>(Fault { address: a }),
        DispatchTarget::Vram => {
            &&& unchanged_except_mem(pre, post)
            &&& spec_vram_updated(pre.mem, post.mem, a - VRAM_BEGIN, v)
            &&& r == Ok::<(), Fault>(())
        },
        DispatchTarget::CartRam => post == pre && r == Err::<(), Fault>(Fault { address: a }),
        DispatchTarget::WorkRam => {
            &&& unchanged_except_mem(pre, post)
            &&& spec_wram_updated(pre.mem, post.mem, a - WORK_RAM_BEGIN, v)
            &&& r == Ok::<(), Fault>(())
        },
        DispatchTarget::EchoRam => {
            &&& unchanged_except_mem(pre, post)
            &&& spec_wram_updated(pre.mem, post.mem, a - ECHO_RAM_OFFSET - WORK_RAM_BEGIN, v)
            &&& r == Ok::<(), Fault>(())
        },
        DispatchTarget::Oam => {
            &&& unchanged_except_mem(pre, post)
            &&& spec_oam_updated(pre.mem, post.mem, a - OAM_BEGIN, v)
            &&& r == Ok::<(), Fault>(())
        },
        DispatchTarget::HighRam => {
            &&& unchanged_except_mem(pre, post)
            &&& spec_hram_updated(pre.mem, post.mem, a - HIGH_RAM_BEGIN, v)
            &&& r == Ok::<(), Fault>(())
        },
        DispatchTarget::Joypad => post == pre && r == Err::<(), Fault>(Fault { address: a }),
        DispatchTarget::SerialRegs => post == pre && r == Err::<(), Fault>(Fault { address: a }),
        DispatchTarget::TimerRegs => {
            let (t2, f2) = spec_timer_write(pre.timer, pre.cpu.interrupt_flag, a, v);
            &&& crate::context::unchanged_except_timer_and_irq(pre, post)
            &&& post.timer == t2
            &&& post.cpu.interrupt_flag == f2
            &&& r == Ok::<(), Fault>(())
        },
        DispatchTarget::InterruptFlag => spec_cpu_write_ok(pre, a, v, post, r),
        DispatchTarget::AudioRegs => post == pre && r == Err::<(), Fault>(Fault { address: a }),
        DispatchTarget::GraphicsRegs => post == pre && r == Err::<(), Fault>(
            Fault { address: a },
        ),
        DispatchTarget::Unmapped => post == pre && r == Ok::<(), Fault>(()),
    }
}

impl HardwareInit for Memory {
    fn init(ctx: &mut Context)
        ensures
            unchanged_except_mem(*old(ctx), *final(ctx)),
            spec_mem_reset(old(ctx).mem, final(ctx).mem),
    {
        ctx.mem.vram.fill(0xFF);
        ctx.mem.wram.fill(0xFF);
        ctx.mem.oam.fill(0xFF);
        ctx.mem.hram.fill(0xFF);
    }
}

/// Every storage block keeps its bound region and size but every byte is
/// back at the floating-bus value 0xFF.
pub open spec fn spec_mem_reset(pre: Memory, post: Memory) -> bool {
    &&& post.vram.region == pre.vram.region && post.vram@.len() == pre.vram@.len()
    &&& post.wram.region == pre.wram.region && post.wram@.len() == pre.wram@.len()
    &&& post.oam.region == pre.oam.region && post.oam@.len() == pre.oam@.len()
    &&& post.hram.region == pre.hram.region && post.hram@.len() == pre.hram@.len()
    &&& forall|i: int| 0 <= i < post.vram@.len() ==> post.vram@[i] == 0xFF
    &&& forall|i: int| 0 <= i < post.wram@.len() ==> post.wram@[i] == 0xFF
    &&& forall|i: int| 0 <= i < post.oam@.len() ==> post.oam@[i] == 0xFF
    &&& forall|i: int| 0 <= i < post.hram@.len() ==> post.hram@[i] == 0xFF
}

impl MemoryInterface for Memory {
    /// Bus access assumes the storage blocks are well formed.
    open spec fn access_inv(ctx: Context) -> bool {
        ctx.mem.wf()
    }

    fn read(ctx: &Context, address: u16) -> (r: Result<u8, Fault>)
        ensures
            r == spec_mem_read(*ctx, address),
    {
        match dispatch(address) {
            // Relaying to the cartridge is out of scope at this layer.
            DispatchTarget::RomSpace => Err(Fault { address }),
            DispatchTarget::Vram => Ok(ctx.mem.vram.get(address)),
            DispatchTarget::CartRam => Err(Fault { address }),
            DispatchTarget::WorkRam => Ok(ctx.mem.wram.get(address)),
            DispatchTarget::EchoRam => Ok(ctx.mem.wram.get(address - ECHO_RAM_OFFSET)),
            DispatchTarget::Oam => Ok(ctx.mem.oam.get(address)),
            DispatchTarget::HighRam => Ok(ctx.mem.hram.get(address)),  // Includes IE register
            DispatchTarget::Joypad => Input::read(ctx, address),
            DispatchTarget::SerialRegs => Serial::read(ctx, address),
            DispatchTarget::TimerRegs => Timer::read(ctx, address),
            DispatchTarget::InterruptFlag => Processor::read(ctx, address),
            DispatchTarget::AudioRegs => Audio::read(ctx, address),
            DispatchTarget::GraphicsRegs => Graphics::read(ctx, address),
            // Open bus: an unmapped read floats to 0xFF.
            DispatchTarget::Unmapped => Ok(0xFF),
        }
    }

    fn write(ctx: &mut Context, address: u16, value: u8) -> (r: Result<(), Fault>)
        ensures
            spec_mem_write_ok(*old(ctx), address, value, *final(ctx), r),
    {
        match dispatch(address) {
            // Relaying to the cartridge is out of scope at this layer.
            DispatchTarget::RomSpace => Err(Fault { address }),
            DispatchTarget::Vram => {
                ctx.mem.vram.set(address, value);
                Ok(())
            },
            DispatchTarget::CartRam => Err(Fault { address }),
            DispatchTarget::WorkRam => {
                ctx.mem.wram.set(address, value);
                Ok(())
            },
            DispatchTarget::EchoRam => {
                ctx.mem.wram.set(address - ECHO_RAM_OFFSET, value);
                Ok(())
            },
            DispatchTarget::Oam => {
                ctx.mem.oam.set(address, value);
                Ok(())
            },
            DispatchTarget::HighRam => {
                ctx.mem.hram.set(address, value);  // Includes IE register
                Ok(())
            },
            DispatchTarget::Joypad => Input::write(ctx, address, value),
            DispatchTarget::SerialRegs => Serial::write(ctx, address, value),
            DispatchTarget::TimerRegs => Timer::write(ctx, address, value),
            DispatchTarget::InterruptFlag => Processor::write(ctx, address, value),
            DispatchTarget::AudioRegs => Audio::write(ctx, address, value),
            DispatchTarget::GraphicsRegs => Graphics::write(ctx, address, value),
            // Open bus: an unmapped write is silently discarded.
            DispatchTarget::Unmapped => Ok(()),
        }
    }
}

/// Echo RAM aliasing, write side: a write through the echo window lands in
/// work RAM, so the aliased work-RAM address reads the value back.
pub proof fn lemma_echo_ram_alias(pre: Context, post: Context, k: u16, v: u8)
    requires
        pre.mem.wf(),
        k < 0x1E00,
        spec_mem_write_ok(pre, (ECHO_RAM_BEGIN + k) as u16, v, post, Ok(())),
    ensures
        spec_mem_read(post, (WORK_RAM_BEGIN + k) as u16) == Ok::<u8, Fault>(v),
{
}

/// Echo RAM aliasing, read side: a write to the aliased stretch of work RAM
/// reads back through the echo window.
pub proof fn lemma_work_ram_alias(pre: Context, post: Context, k: u16, v: u8)
    requires
        pre.mem.wf(),
        k < 0x1E00,
        spec_mem_write_ok(pre, (WORK_RAM_BEGIN + k) as u16, v, post, Ok(())),
    ensures
        spec_mem_read(post, (ECHO_RAM_BEGIN + k) as u16) == Ok::<u8, Fault>(v),
{
}

} // verus!
