use crate::frame::FrameHalf;
use vstd::prelude::*;

verus! {

/// The CPU clock of the board.
pub const CYCLES_PER_SEC: u64 = 2_000_000;

pub const CYCLES_PER_MICROSEC: u64 = 2;

/// Half of a 60 Hz frame, in microseconds: the spacing of interrupts.
pub const HALF_FRAME_MICROS: u64 = 8333;

/// The longest stretch of wall-clock time one tick will catch up on.
pub const MAX_CATCH_UP_MICROS: u64 = 1_000_000;

pub open spec fn saturating_sum(a: u64, b: u64) -> u64 {
    if a + b > u64::MAX {
        u64::MAX
    } else {
        (a + b) as u64
    }
}

/// What one iteration of the machine loop must do.
#[derive(Clone, Copy, Debug, PartialEq, Eq, Structural)]
pub struct Tick {
    /// The interrupt to raise before running the CPU, if one is due.
    pub interrupt: Option<FrameHalf>,
    /// The half of the framebuffer to redraw after running the CPU.
    pub redraw: FrameHalf,
    /// The number of CPU cycles to run.
    pub cycle_budget: u64,
}

/// The scheduler's state, with times in microseconds of a monotonic clock.
#[derive(Clone, Copy, Debug, PartialEq, Eq, Structural)]
pub struct MachineClock {
    /// The time of the previous tick; none before the first.
    pub last_time: Option<u64>,
    /// When the next interrupt is due; meaningful once a tick has run.
    pub next_interrupt_time: u64,
    /// The half whose interrupt comes next.
    pub next_half: FrameHalf,
}

impl MachineClock {
    pub open spec fn initial() -> MachineClock {
        MachineClock { last_time: None, next_interrupt_time: 0, next_half: FrameHalf::Top }
    }

    /// Time does not run backwards between ticks.
    pub open spec fn admits(self, now: u64) -> bool {
        match self.last_time {
            Some(t) => t <= now,
            None => true,
        }
    }

    /// The start of the stretch of time this tick accounts for; on the first
    /// tick it is empty.
    pub open spec fn start_time(self, now: u64) -> u64 {
        match self.last_time {
            Some(t) => t,
            None => now,
        }
    }

    /// When the pending interrupt is due; the first tick schedules it half a
    /// frame ahead.
    pub open spec fn deadline(self, now: u64) -> u64 {
        match self.last_time {
            Some(_) => self.next_interrupt_time,
            None => saturating_sum(now, HALF_FRAME_MICROS),
        }
    }

    pub open spec fn fires(self, now: u64, interrupts_enabled: bool) -> bool {
        interrupts_enabled && now > self.deadline(now)
    }

    /// Two cycles per elapsed microsecond, at most one second's worth.
    pub open spec fn budget(self, now: u64) -> u64 {
        let elapsed = now - self.start_time(now);
        if elapsed > MAX_CATCH_UP_MICROS {
            CYCLES_PER_SEC
        } else {
            (CYCLES_PER_MICROSEC * elapsed) as u64
        }
    }

    pub open spec fn next_state(self, now: u64, interrupts_enabled: bool) -> MachineClock {
        if self.fires(now, interrupts_enabled) {
            MachineClock {
                last_time: Some(now),
                next_interrupt_time: saturating_sum(self.deadline(now), HALF_FRAME_MICROS),
                next_half: self.next_half.toggled_spec(),
            }
        } else {
            MachineClock {
                last_time: Some(now),
                next_interrupt_time: self.deadline(now),
                next_half: self.next_half,
            }
        }
    }

    pub open spec fn output(self, now: u64, interrupts_enabled: bool) -> Tick {
        Tick {
            interrupt: if self.fires(now, interrupts_enabled) {
                Some(self.next_half)
            } else {
                None
            },
            redraw: self.next_half,
            cycle_budget: self.budget(now),
        }
    }

    /// A clock that has not ticked yet; the first interrupt is the top one.
    pub fn new() -> (r: MachineClock)
        ensures
            r == MachineClock::initial(),
    {
        MachineClock { last_time: None, next_interrupt_time: 0, next_half: FrameHalf::Top }
    }

    /// One iteration of the machine loop at time `now`: decides whether an
    /// interrupt is raised (and which), which half of the screen to redraw
    /// and how many cycles to run, and records `now`.
    pub fn tick(&mut self, now: u64, interrupts_enabled: bool) -> (r: Tick)
        requires
            old(self).admits(now),
        ensures
            *final(self) == old(self).next_state(now, interrupts_enabled),
            r == old(self).output(now, interrupts_enabled),
    {
        let redraw = self.next_half;
        let (start, deadline): (u64, u64) = match self.last_time {
            Some(t) => (t, self.next_interrupt_time),
            None => (now, now.saturating_add(HALF_FRAME_MICROS)),
        };
        let mut interrupt: Option<FrameHalf> = None;
        let mut next_deadline = deadline;
        if interrupts_enabled && now > deadline {
            interrupt = Some(self.next_half);
            self.next_half = self.next_half.toggled();
            next_deadline = deadline.saturating_add(HALF_FRAME_MICROS);
        }
        let elapsed = now - start;
        let cycle_budget = if elapsed > MAX_CATCH_UP_MICROS {
            CYCLES_PER_SEC
        } else {
            CYCLES_PER_MICROSEC * elapsed
        };
        self.last_time = Some(now);
        self.next_interrupt_time = next_deadline;
        Tick { interrupt, redraw, cycle_budget }
    }
}

/// The clock after handling `events`, each a time and whether the CPU had
/// interrupts enabled, in order.
pub open spec fn run_clock(c: MachineClock, events: Seq<(u64, bool)>) -> MachineClock
    decreases events.len(),
{
    if events.len() == 0 {
        c
    } else {
        let e = events.last();
        run_clock(c, events.drop_last()).next_state(e.0, e.1)
    }
}

/// How many interrupts handling `events` raises.
pub open spec fn interrupts_raised(c: MachineClock, events: Seq<(u64, bool)>) -> nat
    decreases events.len(),
{
    if events.len() == 0 {
        0
    } else {
        let e = events.last();
        interrupts_raised(c, events.drop_last()) + if run_clock(c, events.drop_last()).fires(
            e.0,
            e.1,
        ) {
            1nat
        } else {
            0nat
        }
    }
}

/// The half announced by the interrupt that comes after `n` others: top,
/// bottom, top, bottom, ...
pub open spec fn half_after(n: nat) -> FrameHalf {
    if n % 2 == 0 {
        FrameHalf::Top
    } else {
        FrameHalf::Bottom
    }
}

proof fn lemma_pending_half(events: Seq<(u64, bool)>)
    ensures
        run_clock(MachineClock::initial(), events).next_half == half_after(
            interrupts_raised(MachineClock::initial(), events),
        ),
    decreases events.len(),
{
    if events.len() > 0 {
        lemma_pending_half(events.drop_last());
    }
}

/// Starting from a fresh clock, the interrupts raised over any run of ticks
/// announce top, bottom, top, bottom, ... in strict alternation, beginning
/// with top.
pub proof fn lemma_interrupts_alternate(events: Seq<(u64, bool)>)
    ensures
        forall|i: int|
            0 <= i < events.len() ==> match #[trigger] run_clock(
                MachineClock::initial(),
                events.take(i),
            ).output(events[i].0, events[i].1).interrupt {
                Some(h) => h == half_after(
                    interrupts_raised(MachineClock::initial(), events.take(i)),
                ),
                None => true,
            },
{
    assert forall|i: int| 0 <= i < events.len() implies match #[trigger] run_clock(
        MachineClock::initial(),
        events.take(i),
    ).output(events[i].0, events[i].1).interrupt {
        Some(h) => h == half_after(interrupts_raised(MachineClock::initial(), events.take(i))),
        None => true,
    } by {
        lemma_pending_half(events.take(i));
    }
}

/// Interrupts are due half a frame apart: raising one moves the deadline
/// exactly one half frame on (short of the end of the clock's range).
pub proof fn lemma_interrupt_spacing(c: MachineClock, now: u64, interrupts_enabled: bool)
    requires
        c.fires(now, interrupts_enabled),
        c.deadline(now) + HALF_FRAME_MICROS <= u64::MAX,
    ensures
        c.next_state(now, interrupts_enabled).next_interrupt_time == c.deadline(now)
            + HALF_FRAME_MICROS,
{
}

/// When more than one second has passed since the previous tick, the cycle
/// budget is exactly one second's worth of cycles.
pub proof fn lemma_budget_cap(c: MachineClock, now: u64, interrupts_enabled: bool)
    requires
        c.last_time is Some,
        now - c.last_time->0 > MAX_CATCH_UP_MICROS,
    ensures
        c.output(now, interrupts_enabled).cycle_budget == CYCLES_PER_SEC,
{
}

} // verus!
