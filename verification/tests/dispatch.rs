use gb_core::context::Context;
use gb_core::hardware::memory::{dispatch, DispatchTarget, Memory};
use gb_core::hardware::{Fault, MemoryInterface};
use gb_core::options::Options;

fn new_machine() -> Context {
    Context::new(Options { meta: false, boot: false, rom_path: String::from("game.gb") })
}

#[test]
fn dispatch_routes_every_class() {
    assert_eq!(dispatch(0x0000), DispatchTarget::RomSpace);
    assert_eq!(dispatch(0x7FFF), DispatchTarget::RomSpace);
    assert_eq!(dispatch(0x8000), DispatchTarget::Vram);
    assert_eq!(dispatch(0x9FFF), DispatchTarget::Vram);
    assert_eq!(dispatch(0xA000), DispatchTarget::CartRam);
    assert_eq!(dispatch(0xC000), DispatchTarget::WorkRam);
    assert_eq!(dispatch(0xDFFF), DispatchTarget::WorkRam);
    assert_eq!(dispatch(0xE000), DispatchTarget::EchoRam);
    assert_eq!(dispatch(0xFDFF), DispatchTarget::EchoRam);
    assert_eq!(dispatch(0xFE00), DispatchTarget::Oam);
    assert_eq!(dispatch(0xFE9F), DispatchTarget::Oam);
    assert_eq!(dispatch(0xFF80), DispatchTarget::HighRam);
    assert_eq!(dispatch(0xFFFF), DispatchTarget::HighRam);
    assert_eq!(dispatch(0xFF00), DispatchTarget::Joypad);
    assert_eq!(dispatch(0xFF01), DispatchTarget::SerialRegs);
    assert_eq!(dispatch(0xFF02), DispatchTarget::SerialRegs);
    assert_eq!(dispatch(0xFF04), DispatchTarget::TimerRegs);
    assert_eq!(dispatch(0xFF07), DispatchTarget::TimerRegs);
    assert_eq!(dispatch(0xFF0F), DispatchTarget::InterruptFlag);
    assert_eq!(dispatch(0xFF10), DispatchTarget::AudioRegs);
    assert_eq!(dispatch(0xFF3F), DispatchTarget::AudioRegs);
    assert_eq!(dispatch(0xFF40), DispatchTarget::GraphicsRegs);
    assert_eq!(dispatch(0xFF4B), DispatchTarget::GraphicsRegs);
}

#[test]
fn dispatch_unmapped_holes() {
    // The documented unusable range.
    assert_eq!(dispatch(0xFEA0), DispatchTarget::Unmapped);
    assert_eq!(dispatch(0xFEFF), DispatchTarget::Unmapped);
    // Holes inside the I/O window.
    assert_eq!(dispatch(0xFF03), DispatchTarget::Unmapped);
    assert_eq!(dispatch(0xFF08), DispatchTarget::Unmapped);
    assert_eq!(dispatch(0xFF4C), DispatchTarget::Unmapped);
    assert_eq!(dispatch(0xFF50), DispatchTarget::Unmapped);
    assert_eq!(dispatch(0xFF7F), DispatchTarget::Unmapped);
}

#[test]
fn unmapped_read_returns_floating_bus() {
    let ctx = new_machine();
    // Inside the documented unusable range: open bus, not a fatal error.
    assert_eq!(Memory::read(&ctx, 0xFEA0), Ok(0xFF));
    assert_eq!(Memory::read(&ctx, 0xFF03), Ok(0xFF));
}

#[test]
fn unmapped_write_is_discarded() {
    let mut ctx = new_machine();
    assert_eq!(Memory::write(&mut ctx, 0xFEA0, 0x12), Ok(()));
    assert_eq!(Memory::read(&ctx, 0xFEA0), Ok(0xFF));
}

#[test]
fn out_of_scope_unit_faults() {
    let mut ctx = new_machine();
    // Units whose behaviour lives outside this layer report a protocol
    // violation instead of inventing register contents.
    assert_eq!(Memory::read(&ctx, 0xFF10), Err(Fault { address: 0xFF10 }));
    assert_eq!(Memory::read(&ctx, 0xFF00), Err(Fault { address: 0xFF00 }));
    assert_eq!(Memory::read(&ctx, 0x1234), Err(Fault { address: 0x1234 }));
    assert_eq!(Memory::write(&mut ctx, 0xFF40, 0x91), Err(Fault { address: 0xFF40 }));
    assert_eq!(Memory::write(&mut ctx, 0xA000, 0x01), Err(Fault { address: 0xA000 }));
}

#[test]
fn ram_powers_on_floating() {
    let ctx = new_machine();
    assert_eq!(Memory::read(&ctx, 0x8000), Ok(0xFF));
    assert_eq!(Memory::read(&ctx, 0xC000), Ok(0xFF));
    assert_eq!(Memory::read(&ctx, 0xFE00), Ok(0xFF));
    assert_eq!(Memory::read(&ctx, 0xFF80), Ok(0xFF));
}

#[test]
fn ram_round_trip() {
    let mut ctx = new_machine();
    assert_eq!(Memory::write(&mut ctx, 0x8123, 0x11), Ok(()));
    assert_eq!(Memory::write(&mut ctx, 0xC234, 0x22), Ok(()));
    assert_eq!(Memory::write(&mut ctx, 0xFE45, 0x33), Ok(()));
    assert_eq!(Memory::write(&mut ctx, 0xFF85, 0x44), Ok(()));
    assert_eq!(Memory::read(&ctx, 0x8123), Ok(0x11));
    assert_eq!(Memory::read(&ctx, 0xC234), Ok(0x22));
    assert_eq!(Memory::read(&ctx, 0xFE45), Ok(0x33));
    assert_eq!(Memory::read(&ctx, 0xFF85), Ok(0x44));
}

#[test]
fn interrupt_enable_is_storage() {
    let mut ctx = new_machine();
    // The interrupt-enable register sits at the top of high RAM and is pure
    // storage at this layer.
    assert_eq!(Memory::write(&mut ctx, 0xFFFF, 0x1F), Ok(()));
    assert_eq!(Memory::read(&ctx, 0xFFFF), Ok(0x1F));
}

#[test]
fn interrupt_flag_round_trip() {
    let mut ctx = new_machine();
    assert_eq!(Memory::read(&ctx, 0xFF0F), Ok(0x00));
    assert_eq!(Memory::write(&mut ctx, 0xFF0F, 0x05), Ok(()));
    assert_eq!(Memory::read(&ctx, 0xFF0F), Ok(0x05));
}

#[test]
fn echo_ram_aliases_work_ram() {
    let mut ctx = new_machine();
    // A write through the echo window reads back through work RAM ...
    assert_eq!(Memory::write(&mut ctx, 0xE000 + 0x0123, 0xAB), Ok(()));
    assert_eq!(Memory::read(&ctx, 0xC000 + 0x0123), Ok(0xAB));
    // ... and vice versa, across the whole aliased window.
    assert_eq!(Memory::write(&mut ctx, 0xC000 + 0x1DFF, 0xCD), Ok(()));
    assert_eq!(Memory::read(&ctx, 0xE000 + 0x1DFF), Ok(0xCD));
    assert_eq!(Memory::write(&mut ctx, 0xC000, 0x01), Ok(()));
    assert_eq!(Memory::read(&ctx, 0xE000), Ok(0x01));
}
