//! Simulation clock: elapsed simulated time, speed multiplier and pause.

use vstd::prelude::*;

verus! {

/// Simulated nanodays in one Earth day.
pub const NANODAYS_PER_DAY: u64 = 1_000_000_000;

/// Default speed: one Earth day per real second.
pub const DEFAULT_SPEED: u64 = 1000;

/// Slowest speed: 0.1 days per real second.
pub const MIN_SPEED: u64 = 100;

/// Fastest speed: 100 days per real second.
pub const MAX_SPEED: u64 = 100_000;

/// Number of discrete speed steps.
pub const SPEED_STEP_COUNT: usize = 8;

/// The discrete speed steps, ascending, in millidays per second:
/// 0.1, 0.5, 1, 2, 5, 10, 50 and 100 days per second.
pub open spec fn spec_speed_step(i: int) -> u64 {
    if i == 0 {
        100
    } else if i == 1 {
        500
    } else if i == 2 {
        1000
    } else if i == 3 {
        2000
    } else if i == 4 {
        5000
    } else if i == 5 {
        10_000
    } else if i == 6 {
        50_000
    } else {
        100_000
    }
}

/// Whether `i` indexes a speed step.
pub open spec fn is_step_index(i: int) -> bool {
    0 <= i < SPEED_STEP_COUNT as int
}

/// Speed step `i`.
pub fn speed_step(i: usize) -> (r: u64)
    requires
        i < SPEED_STEP_COUNT,
    ensures
        r == spec_speed_step(i as int),
{
    match i {
        0 => 100,
        1 => 500,
        2 => 1000,
        3 => 2000,
        4 => 5000,
        5 => 10_000,
        6 => 50_000,
        _ => 100_000,
    }
}

/// `x` limited to `[lo, hi]`.
pub open spec fn clamp(x: int, lo: int, hi: int) -> int {
    if x < lo {
        lo
    } else if x > hi {
        hi
    } else {
        x
    }
}

/// Whether some step is faster than `speed`.
pub open spec fn has_step_above(speed: u64) -> bool {
    exists|i: int| is_step_index(i) && spec_speed_step(i) > speed
}

/// Whether some step is slower than `speed`.
pub open spec fn has_step_below(speed: u64) -> bool {
    exists|i: int| is_step_index(i) && spec_speed_step(i) < speed
}

/// `next` is the slowest step that is faster than `speed`.
pub open spec fn is_next_step_up(speed: u64, next: u64) -> bool {
    &&& exists|i: int| is_step_index(i) && spec_speed_step(i) == next
    &&& next > speed
    &&& forall|i: int| is_step_index(i) && spec_speed_step(i) > speed ==> spec_speed_step(i) >= next
}

/// `next` is the fastest step that is slower than `speed`.
pub open spec fn is_next_step_down(speed: u64, next: u64) -> bool {
    &&& exists|i: int| is_step_index(i) && spec_speed_step(i) == next
    &&& next < speed
    &&& forall|i: int| is_step_index(i) && spec_speed_step(i) < speed ==> spec_speed_step(i) <= next
}

/// The speed after a step up from `speed`.
pub open spec fn stepped_up(speed: u64) -> u64 {
    if has_step_above(speed) {
        choose|n: u64| is_next_step_up(speed, n)
    } else {
        speed
    }
}

/// The speed after a step down from `speed`.
pub open spec fn stepped_down(speed: u64) -> u64 {
    if has_step_below(speed) {
        choose|n: u64| is_next_step_down(speed, n)
    } else {
        speed
    }
}

/// The simulated time reached from `days` by `dt_micros` real microseconds at
/// `speed` millidays per second, saturating at the largest representable time.
pub open spec fn advanced(days: u64, speed: u64, dt_micros: u64) -> int {
    let t = days + dt_micros * speed;
    if t > u64::MAX {
        u64::MAX as int
    } else {
        t
    }
}

/// The character of decimal digit `d`.
pub open spec fn digit_char(d: nat) -> char {
    if d == 0 {
        '0'
    } else if d == 1 {
        '1'
    } else if d == 2 {
        '2'
    } else if d == 3 {
        '3'
    } else if d == 4 {
        '4'
    } else if d == 5 {
        '5'
    } else if d == 6 {
        '6'
    } else if d == 7 {
        '7'
    } else if d == 8 {
        '8'
    } else {
        '9'
    }
}

/// `n` written in decimal, without leading zeros.
pub open spec fn decimal(n: nat) -> Seq<char>
    decreases n,
{
    if n < 10 {
        seq![digit_char(n)]
    } else {
        decimal(n / 10) + seq![digit_char(n % 10)]
    }
}

/// The speed label for `speed` millidays per second: the multiple of the
/// default speed after a `×`, as a whole number when it is one, else rounded
/// half up to one decimal.
pub open spec fn speed_label_text(speed: u64) -> Seq<char> {
    if speed % DEFAULT_SPEED == 0 {
        seq!['×'] + decimal((speed / DEFAULT_SPEED) as nat)
    } else {
        let tenths = (speed + 50) / 100;
        seq!['×'] + decimal((tenths / 10) as nat) + seq!['.'] + decimal((tenths % 10) as nat)
    }
}

/// The one-character string of digit `d`.
fn digit_str(d: u64) -> (r: &'static str)
    requires
        d < 10,
    ensures
        r@ == seq![digit_char(d as nat)],
{
    proof {
        reveal_strlit("0");
        reveal_strlit("1");
        reveal_strlit("2");
        reveal_strlit("3");
        reveal_strlit("4");
        reveal_strlit("5");
        reveal_strlit("6");
        reveal_strlit("7");
        reveal_strlit("8");
        reveal_strlit("9");
    }
    match d {
        0 => "0",
        1 => "1",
        2 => "2",
        3 => "3",
        4 => "4",
        5 => "5",
        6 => "6",
        7 => "7",
        8 => "8",
        _ => "9",
    }
}

/// Append `n` in decimal to `out`.
fn push_decimal(out: &mut String, n: u64)
    ensures
        final(out)@ == old(out)@ + decimal(n as nat),
    decreases n,
{
    if n < 10 {
        out.append(digit_str(n));
    } else {
        push_decimal(out, n / 10);
        out.append(digit_str(n % 10));
        assert(final(out)@ =~= old(out)@ + decimal(n as nat));
    }
}

/// Elapsed simulated time, speed multiplier and pause flag.
///
/// One microsecond of real time at one milliday per second is exactly one
/// nanoday of simulated time, so advancing the clock never rounds.
#[derive(Debug, Clone, Copy, PartialEq, Eq)]
pub struct SimulationTime {
    /// Simulated time since the epoch, in nanodays.
    pub current_nanodays: u64,
    /// Simulated millidays per real second.
    pub speed: u64,
    /// Whether time is stopped.
    pub paused: bool,
}

/// The clock after `advance(dt_micros)`.
pub open spec fn spec_advance(t: SimulationTime, dt_micros: u64) -> SimulationTime {
    if t.paused {
        t
    } else {
        SimulationTime { current_nanodays: advanced(t.current_nanodays, t.speed, dt_micros) as u64, ..t }
    }
}

/// The clock after `toggle_pause()`.
pub open spec fn spec_toggle_pause(t: SimulationTime) -> SimulationTime {
    SimulationTime { paused: !t.paused, ..t }
}

/// The clock after `set_speed(v)`.
pub open spec fn spec_set_speed(t: SimulationTime, v: i64) -> SimulationTime {
    SimulationTime { speed: clamp(v as int, MIN_SPEED as int, MAX_SPEED as int) as u64, ..t }
}

/// A clock at the epoch, running at the default speed.
pub open spec fn initial_clock() -> SimulationTime {
    SimulationTime { current_nanodays: 0, speed: DEFAULT_SPEED, paused: false }
}

impl SimulationTime {
    /// The speed stays within `[MIN_SPEED, MAX_SPEED]`.
    pub open spec fn wf(&self) -> bool {
        MIN_SPEED <= self.speed <= MAX_SPEED
    }

    /// A clock at the epoch, running at the default speed.
    pub fn new() -> (r: SimulationTime)
        ensures
            r.wf(),
            r == initial_clock(),
            r.current_nanodays == 0,
            r.speed == DEFAULT_SPEED,
            !r.paused,
    {
        SimulationTime { current_nanodays: 0, speed: DEFAULT_SPEED, paused: false }
    }

    /// Advance by `dt_micros` real microseconds; no change while paused.
    pub fn advance(&mut self, dt_micros: u64)
        ensures
            *final(self) == spec_advance(*old(self), dt_micros),
            final(self).speed == old(self).speed,
            final(self).paused == old(self).paused,
            old(self).paused ==> final(self).current_nanodays == old(self).current_nanodays,
            !old(self).paused ==> final(self).current_nanodays == advanced(
                old(self).current_nanodays,
                old(self).speed,
                dt_micros,
            ),
    {
        if !self.paused {
            proof {
                let a = dt_micros as int;
                let b = self.speed as int;
                assert(0 <= a * b <= u64::MAX as int * u64::MAX as int) by (nonlinear_arith)
                    requires
                        0 <= a <= u64::MAX as int,
                        0 <= b <= u64::MAX as int,
                ;
            }
            let t: u128 = self.current_nanodays as u128 + dt_micros as u128 * self.speed as u128;
            if t > u64::MAX as u128 {
                self.current_nanodays = u64::MAX;
            } else {
                self.current_nanodays = t as u64;
            }
        }
    }

    /// Set the speed directly, clamped to `[MIN_SPEED, MAX_SPEED]`.
    pub fn set_speed(&mut self, millidays_per_second: i64)
        ensures
            *final(self) == spec_set_speed(*old(self), millidays_per_second),
            final(self).wf(),
            final(self).speed == clamp(millidays_per_second as int, MIN_SPEED as int, MAX_SPEED as int),
            final(self).current_nanodays == old(self).current_nanodays,
            final(self).paused == old(self).paused,
    {
        if millidays_per_second < MIN_SPEED as i64 {
            self.speed = MIN_SPEED;
        } else if millidays_per_second > MAX_SPEED as i64 {
            self.speed = MAX_SPEED;
        } else {
            self.speed = millidays_per_second as u64;
        }
    }

    /// Stop or restart time.
    pub fn toggle_pause(&mut self)
        ensures
            *final(self) == spec_toggle_pause(*old(self)),
            final(self).paused == !old(self).paused,
            final(self).current_nanodays == old(self).current_nanodays,
            final(self).speed == old(self).speed,
    {
        self.paused = !self.paused;
    }

    /// Move to the slowest step faster than the current speed; no change at
    /// the top of the range.
    pub fn speed_up(&mut self)
        requires
            old(self).wf(),
        ensures
            final(self).wf(),
            has_step_above(old(self).speed) ==> is_next_step_up(old(self).speed, final(self).speed),
            !has_step_above(old(self).speed) ==> final(self).speed == old(self).speed,
            final(self).speed == stepped_up(old(self).speed),
            final(self).current_nanodays == old(self).current_nanodays,
            final(self).paused == old(self).paused,
    {
        let current = self.speed;
        let mut i: usize = 0;
        while i < SPEED_STEP_COUNT
            invariant
                i <= SPEED_STEP_COUNT,
                current == old(self).speed,
                *self == *old(self),
                forall|j: int| 0 <= j < i ==> spec_speed_step(j) <= current,
            decreases SPEED_STEP_COUNT - i,
        {
            let s = speed_step(i);
            if s > current {
                proof {
                    assert(is_step_index(i as int) && spec_speed_step(i as int) > current);
                    assert forall|j: int| is_step_index(j) && spec_speed_step(j) > current implies spec_speed_step(j) >= s by {
                        assert(j >= i);
                    }
                    assert(is_next_step_up(current, s));
                    assert forall|n: u64| is_next_step_up(current, n) implies n == s by {
                        let k = choose|k: int| is_step_index(k) && spec_speed_step(k) == n;
                        assert(spec_speed_step(k) >= s);
                    }
                }
                self.speed = s;
                return;
            }
            i = i + 1;
        }
    }

    /// Move to the fastest step slower than the current speed; no change at
    /// the bottom of the range.
    pub fn speed_down(&mut self)
        requires
            old(self).wf(),
        ensures
            final(self).wf(),
            has_step_below(old(self).speed) ==> is_next_step_down(old(self).speed, final(self).speed),
            !has_step_below(old(self).speed) ==> final(self).speed == old(self).speed,
            final(self).speed == stepped_down(old(self).speed),
            final(self).current_nanodays == old(self).current_nanodays,
            final(self).paused == old(self).paused,
    {
        let current = self.speed;
        let mut i: usize = SPEED_STEP_COUNT;
        while i > 0
            invariant
                i <= SPEED_STEP_COUNT,
                current == old(self).speed,
                *self == *old(self),
                forall|j: int| i <= j < SPEED_STEP_COUNT ==> spec_speed_step(j) >= current,
            decreases i,
        {
            let s = speed_step(i - 1);
            if s < current {
                proof {
                    assert(is_step_index(i - 1) && spec_speed_step(i - 1) < current);
                    assert forall|j: int| is_step_index(j) && spec_speed_step(j) < current implies spec_speed_step(j) <= s by {
                        assert(j < i);
                    }
                    assert(is_next_step_down(current, s));
                    assert forall|n: u64| is_next_step_down(current, n) implies n == s by {
                        let k = choose|k: int| is_step_index(k) && spec_speed_step(k) == n;
                        assert(spec_speed_step(k) <= s);
                    }
                }
                self.speed = s;
                return;
            }
            i = i - 1;
        }
    }

    /// A label for the speed as a multiple of the default: `×10`, `×0.5`.
    pub fn speed_label(&self) -> (r: String)
        ensures
            r@ == speed_label_text(self.speed),
    {
        proof {
            reveal_strlit("×");
            reveal_strlit(".");
        }
        let mut out = String::from_str("×");
        if self.speed % DEFAULT_SPEED == 0 {
            push_decimal(&mut out, self.speed / DEFAULT_SPEED);
        } else {
            let tenths = self.speed / 100 + (if self.speed % 100 >= 50 { 1 } else { 0 });
            assert(tenths == (self.speed + 50) / 100);
            push_decimal(&mut out, tenths / 10);
            out.append(".");
            push_decimal(&mut out, tenths % 10);
        }
        out
    }
}

impl Default for SimulationTime {
    /// A clock at the epoch, running at the default speed.
    fn default() -> (r: SimulationTime)
        ensures
            r == initial_clock(),
    {
        SimulationTime::new()
    }
}

/// A fresh clock starts at the epoch, and one real second later it has
/// advanced by exactly one second's worth of its speed: one day at the default
/// speed.
pub proof fn lemma_fresh_clock_one_second()
    ensures
        initial_clock().current_nanodays == 0,
        spec_advance(initial_clock(), 1_000_000).current_nanodays == initial_clock().speed * 1_000_000,
        spec_advance(initial_clock(), 1_000_000).current_nanodays == NANODAYS_PER_DAY,
{
}

/// Pausing a running clock and then advancing it, by any step, leaves the
/// simulated time where it was.
pub proof fn lemma_pause_then_advance_keeps_time(t: SimulationTime, dt_micros: u64)
    requires
        !t.paused,
    ensures
        spec_advance(spec_toggle_pause(t), dt_micros).current_nanodays == t.current_nanodays,
{
}

/// Setting a negative speed gives the slowest valid speed, which is
/// positive.
pub proof fn lemma_negative_speed_clamps_to_min(t: SimulationTime, v: i64)
    requires
        v < 0,
    ensures
        spec_set_speed(t, v).speed == MIN_SPEED,
        spec_set_speed(t, v).speed > 0,
        spec_set_speed(t, v).wf(),
{
}

} // verus!
