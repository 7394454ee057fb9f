use invaders::clock::{MachineClock, CYCLES_PER_SEC, HALF_FRAME_MICROS};
use invaders::frame::FrameHalf;

#[test]
fn first_tick_runs_nothing_and_schedules() {
    let mut c = MachineClock::new();
    let t = c.tick(1_000, true);
    assert_eq!(t.interrupt, None);
    assert_eq!(t.cycle_budget, 0);
    assert_eq!(t.redraw, FrameHalf::Top);
    assert_eq!(c.last_time, Some(1_000));
    assert_eq!(c.next_interrupt_time, 1_000 + HALF_FRAME_MICROS);
}

#[test]
fn budget_is_two_cycles_per_microsecond() {
    let mut c = MachineClock::new();
    c.tick(0, false);
    assert_eq!(c.tick(500, false).cycle_budget, 1_000);
    assert_eq!(c.tick(500, false).cycle_budget, 0);
    assert_eq!(c.tick(1_000_500, false).cycle_budget, 2_000_000);
}

#[test]
fn budget_capped_at_one_second() {
    let mut c = MachineClock::new();
    c.tick(10, false);
    let t = c.tick(10 + 5_000_000, true);
    assert_eq!(t.cycle_budget, CYCLES_PER_SEC);
    let t = c.tick(10 + 5_000_000 + 1_000_001, false);
    assert_eq!(t.cycle_budget, 2_000_000);
}

#[test]
fn interrupts_alternate_starting_with_top() {
    let mut c = MachineClock::new();
    let mut vectors = Vec::new();
    let mut times = Vec::new();
    let mut now = 0u64;
    for _ in 0..2_000 {
        let t = c.tick(now, true);
        if let Some(h) = t.interrupt {
            vectors.push(h.vector());
            times.push(now);
        }
        now += 250;
    }
    assert!(vectors.len() > 50);
    for (i, v) in vectors.iter().enumerate() {
        assert_eq!(*v, if i % 2 == 0 { 1 } else { 2 });
    }
    for w in times.windows(2) {
        let gap = w[1] - w[0];
        assert!(gap >= 8_000 && gap <= 8_333 + 250, "gap {}", gap);
    }
}

#[test]
fn interrupt_waits_while_disabled() {
    let mut c = MachineClock::new();
    c.tick(0, true);
    assert_eq!(c.tick(9_000, false).interrupt, None);
    assert_eq!(c.next_half, FrameHalf::Top);
    let t = c.tick(9_100, true);
    assert_eq!(t.interrupt, Some(FrameHalf::Top));
    assert_eq!(t.redraw, FrameHalf::Top);
    assert_eq!(c.next_half, FrameHalf::Bottom);
    assert_eq!(c.next_interrupt_time, 2 * 8_333);
    let t = c.tick(9_200, true);
    assert_eq!(t.interrupt, None);
    assert_eq!(t.redraw, FrameHalf::Bottom);
}

#[test]
fn deadline_is_not_inclusive() {
    let mut c = MachineClock::new();
    c.tick(0, true);
    assert_eq!(c.tick(8_333, true).interrupt, None);
    assert_eq!(c.tick(8_334, true).interrupt, Some(FrameHalf::Top));
}

#[test]
fn frame_half_toggles_and_vectors() {
    assert_eq!(FrameHalf::Top.toggled(), FrameHalf::Bottom);
    assert_eq!(FrameHalf::Bottom.toggled(), FrameHalf::Top);
    assert_eq!(FrameHalf::Top.vector(), 1);
    assert_eq!(FrameHalf::Bottom.vector(), 2);
}
