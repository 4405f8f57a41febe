use gb_core::context::Context;
use gb_core::hardware::memory::Memory;
use gb_core::hardware::timer::Timer;
use gb_core::hardware::{MemoryInterface, Tick};
use gb_core::io_regs::{IO_DIV, IO_IF, IO_TAC, IO_TIMA, IO_TMA};
use gb_core::options::Options;

fn new_machine() -> Context {
    Context::new(Options { meta: false, boot: false, rom_path: String::from("game.gb") })
}

#[test]
fn power_on_state() {
    let ctx = new_machine();
    assert!(ctx.running);
    // The system counter powers on to a non-zero value; DIV is its high byte.
    assert_eq!(ctx.timer.system_timer, 0xAB00);
    assert_eq!(Memory::read(&ctx, IO_DIV), Ok(0xAB));
    assert_eq!(Memory::read(&ctx, IO_TIMA), Ok(0x00));
    assert_eq!(Memory::read(&ctx, IO_TMA), Ok(0x00));
    // Disabled, slowest rate, unused bits reading as 1.
    assert_eq!(Memory::read(&ctx, IO_TAC), Ok(0xF8));
}

#[test]
fn div_write_resets_counter() {
    let mut ctx = new_machine();
    assert_eq!(Memory::read(&ctx, IO_DIV), Ok(0xAB));
    // Any written value resets the full 16-bit counter, not only DIV's view.
    assert_eq!(Memory::write(&mut ctx, IO_DIV, 0x77), Ok(()));
    assert_eq!(Memory::read(&ctx, IO_DIV), Ok(0x00));
    assert_eq!(ctx.timer.system_timer, 0);
}

#[test]
fn tac_unused_bits_read_back_high() {
    let mut ctx = new_machine();
    assert_eq!(Memory::write(&mut ctx, IO_TAC, 0x05), Ok(()));
    assert_eq!(Memory::read(&ctx, IO_TAC), Ok(0xFD));
    assert_eq!(Memory::write(&mut ctx, IO_TAC, 0x00), Ok(()));
    assert_eq!(Memory::read(&ctx, IO_TAC), Ok(0xF8));
}

#[test]
fn tima_tma_round_trip() {
    let mut ctx = new_machine();
    assert_eq!(Memory::write(&mut ctx, IO_TIMA, 0x37), Ok(()));
    assert_eq!(Memory::write(&mut ctx, IO_TMA, 0x91), Ok(()));
    assert_eq!(Memory::read(&ctx, IO_TIMA), Ok(0x37));
    assert_eq!(Memory::read(&ctx, IO_TMA), Ok(0x91));
}

#[test]
fn timer_edge_fastest_speed() {
    let mut ctx = new_machine();
    // Enable at the fastest selectable rate, which watches counter bit 3,
    // and start the counter from 0.
    assert_eq!(Memory::write(&mut ctx, IO_TAC, 0b101), Ok(()));
    assert_eq!(Memory::write(&mut ctx, IO_DIV, 0x00), Ok(()));
    assert_eq!(Memory::read(&ctx, IO_TIMA), Ok(0));

    // Bit 3 rises at counter 8 and falls at counter 16: exactly 4 cycle
    // ticks of 4 dots each flip it from 1 to 0.
    Timer::tick(&mut ctx);
    Timer::tick(&mut ctx);
    Timer::tick(&mut ctx);
    assert_eq!(Memory::read(&ctx, IO_TIMA), Ok(0));
    Timer::tick(&mut ctx);
    assert_eq!(ctx.timer.system_timer, 16);
    assert_eq!(Memory::read(&ctx, IO_TIMA), Ok(1));
}

#[test]
fn timer_overflow_reloads_and_requests_interrupt() {
    let mut ctx = new_machine();
    assert_eq!(Memory::write(&mut ctx, IO_TAC, 0b101), Ok(()));
    assert_eq!(Memory::write(&mut ctx, IO_DIV, 0x00), Ok(()));
    assert_eq!(Memory::write(&mut ctx, IO_TIMA, 0xFF), Ok(()));
    assert_eq!(Memory::write(&mut ctx, IO_TMA, 0x42), Ok(()));

    // Two ticks raise counter bit 3; resetting DIV then drives one
    // qualifying falling edge.
    Timer::tick(&mut ctx);
    Timer::tick(&mut ctx);
    assert_eq!(Memory::read(&ctx, IO_IF), Ok(0));
    assert_eq!(Memory::write(&mut ctx, IO_DIV, 0x00), Ok(()));

    // TIMA reloads from TMA, not from 0, and the timer bit of IF is set.
    assert_eq!(Memory::read(&ctx, IO_TIMA), Ok(0x42));
    assert_eq!(Memory::read(&ctx, IO_IF), Ok(0b100));
}

#[test]
fn disable_mid_count_causes_one_synthetic_edge() {
    let mut ctx = new_machine();
    assert_eq!(Memory::write(&mut ctx, IO_TAC, 0b101), Ok(()));
    assert_eq!(Memory::write(&mut ctx, IO_DIV, 0x00), Ok(()));
    // Two ticks: the watched bit is currently 1.
    Timer::tick(&mut ctx);
    Timer::tick(&mut ctx);
    assert_eq!(Memory::read(&ctx, IO_TIMA), Ok(0));

    // Clearing the enable while the bit is 1 is an immediate falling edge:
    // exactly one increment.
    assert_eq!(Memory::write(&mut ctx, IO_TAC, 0b001), Ok(()));
    assert_eq!(Memory::read(&ctx, IO_TIMA), Ok(1));

    // And no further increments while disabled.
    for _ in 0..64 {
        Timer::tick(&mut ctx);
    }
    assert_eq!(Memory::read(&ctx, IO_TIMA), Ok(1));
}

#[test]
fn slowest_rate_counts_bit_nine() {
    let mut ctx = new_machine();
    // Start the counter from 0, then enable at the slowest rate, which
    // watches counter bit 9: the falling edge arrives after 1024 dots,
    // i.e. 256 cycle ticks from 0. (Resetting DIV after enabling would
    // itself tick TIMA: the power-on counter 0xAB00 has bit 9 set.)
    assert_eq!(Memory::write(&mut ctx, IO_DIV, 0x00), Ok(()));
    assert_eq!(Memory::write(&mut ctx, IO_TAC, 0b100), Ok(()));
    for _ in 0..255 {
        Timer::tick(&mut ctx);
    }
    assert_eq!(Memory::read(&ctx, IO_TIMA), Ok(0));
    Timer::tick(&mut ctx);
    assert_eq!(Memory::read(&ctx, IO_TIMA), Ok(1));
}

#[test]
fn counter_wraps_around() {
    let mut ctx = new_machine();
    ctx.timer.system_timer = 0xFFFC;
    Timer::tick(&mut ctx);
    // Wraparound of the free-running counter is expected, never an error.
    assert_eq!(ctx.timer.system_timer, 0);
}

#[test]
fn disabled_timer_never_counts() {
    let mut ctx = new_machine();
    assert_eq!(Memory::write(&mut ctx, IO_DIV, 0x00), Ok(()));
    for _ in 0..2048 {
        Timer::tick(&mut ctx);
    }
    assert_eq!(Memory::read(&ctx, IO_TIMA), Ok(0));
    assert_eq!(Memory::read(&ctx, IO_IF), Ok(0));
}
