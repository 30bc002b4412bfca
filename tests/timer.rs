use chip8::timer::Timer;

const MS: u64 = 1_000_000;

#[test]
fn timer_decays_at_sixty_hertz() {
    let mut t = Timer::starting_at(0);
    t.set_value(10);
    let mut reached_zero = None;
    for ms in 1..=1000u64 {
        t.tick(ms * MS);
        if ms == 1 {
            assert_eq!(t.get_value(), 10);
        }
        if t.get_value() == 0 && reached_zero.is_none() {
            reached_zero = Some(ms);
        }
    }
    // ten periods of 1/60 s, each observed at the first whole millisecond after it ends
    assert_eq!(reached_zero, Some(170));
    assert_eq!(t.get_value(), 0);
}

#[test]
fn ticks_without_elapsed_time_do_not_decrement() {
    let mut t = Timer::starting_at(5 * MS);
    t.set_value(3);
    for _ in 0..10_000 {
        t.tick(5 * MS + 16_666_666);
    }
    assert_eq!(t.get_value(), 3);
    t.tick(5 * MS + 16_666_667);
    assert_eq!(t.get_value(), 2);
}

#[test]
fn one_tick_decrements_at_most_once() {
    let mut t = Timer::starting_at(0);
    t.set_value(5);
    t.tick(1_000 * MS);
    assert_eq!(t.get_value(), 4);
}

#[test]
fn stopped_timer_stays_at_zero() {
    let mut t = Timer::starting_at(0);
    t.tick(1_000 * MS);
    assert_eq!(t.get_value(), 0);
}

#[test]
fn clock_before_reference_is_no_elapsed_time() {
    let mut t = Timer::starting_at(100 * MS);
    t.set_value(1);
    t.tick(0);
    assert_eq!(t.get_value(), 1);
}

#[test]
fn timer_against_clock() {
    let mut t = Timer::new();
    assert_eq!(t.get_value(), 0);
    t.set_value(200);
    t.cycle();
    assert!(t.get_value() == 200 || t.get_value() == 199);
}
