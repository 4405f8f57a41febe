use gb_core::context::Context;
use gb_core::options::Options;
use gb_core::{run, step};

fn new_machine() -> Context {
    Context::new(Options { meta: false, boot: false, rom_path: String::from("game.gb") })
}

#[test]
fn step_advances_one_machine_cycle() {
    let mut ctx = new_machine();
    let before = ctx.timer.system_timer;
    step(&mut ctx);
    // One machine cycle is 4 dots on the free-running counter.
    assert_eq!(ctx.timer.system_timer, before.wrapping_add(4));
}

#[test]
fn step_leaves_idle_units_alone() {
    let mut ctx = new_machine();
    step(&mut ctx);
    // Only the timer circuit has per-cycle behaviour at this layer.
    assert!(ctx.running);
    assert_eq!(ctx.cpu.interrupt_flag, 0);
}

#[test]
fn run_halts() {
    // The machine starts Running and halts once the external stop takes
    // effect; run returns instead of spinning.
    run(Options { meta: false, boot: true, rom_path: String::from("game.gb") });
}
