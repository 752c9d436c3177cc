use net_sync::synchronisation::CommandFrameTicker;
use std::time::{Duration, Instant};

fn wait(millis: u64) {
    let start = Instant::now();
    while start.elapsed() < Duration::from_millis(millis) {}
}

#[test]
fn should_advance_tick() {
    let mut ticker = CommandFrameTicker::new(10);
    ticker.advance();

    assert_eq!(ticker.command_frame(), 1);
}

#[test]
fn should_change_simulation_speed() {
    let mut ticker = CommandFrameTicker::new(10);
    ticker.adjust_simulation(11);

    assert_eq!(ticker.simulation_speed(), 11);
}

#[test]
fn can_tick_returns_true() {
    let ticker = CommandFrameTicker::new(100);

    wait(110);

    assert!(ticker.can_tick());
}

#[test]
fn can_tick_returns_false() {
    let ticker = CommandFrameTicker::new(100);
    assert!(!ticker.can_tick());
}

#[test]
fn should_advance_with_try_tick() {
    let mut ticker = CommandFrameTicker::new(100);

    wait(110);

    assert!(ticker.try_tick());
    assert_eq!(ticker.command_frame(), 1);
    assert!(!ticker.can_tick());
}

#[test]
fn should_not_advance_with_try_tick() {
    let ticker = CommandFrameTicker::new(100);

    assert!(!ticker.can_tick());
    assert_eq!(ticker.command_frame(), 0);
}

#[test]
fn try_tick_after_ticks_exactly_when_due() {
    let mut ticker = CommandFrameTicker::new(100);
    assert!(!ticker.try_tick_after(99));
    assert_eq!(ticker.command_frame(), 0);
    assert!(ticker.try_tick_after(100));
    assert_eq!(ticker.command_frame(), 1);
    assert!(ticker.try_tick_after(250));
    assert_eq!(ticker.command_frame(), 2);
}

#[test]
fn set_command_frame_resyncs() {
    let mut ticker = CommandFrameTicker::new(5);
    ticker.set_command_frame(40);
    assert_eq!(ticker.command_frame(), 40);
    assert!(ticker.can_tick_after(5));
    assert!(!ticker.can_tick_after(4));
}
