//! Tick-based time driver: a monotonic software clock and a single-shot
//! alarm driven by the clock's interrupt.
//!
//! The clock is a free-running 64-bit tick counter held as two 32-bit words,
//! because the target hardware has no native 64-bit atomic increment. The
//! alarm holds at most one outstanding deadline (capacity fixed at one,
//! matching the single hardware comparator) plus a callback stored by value.
//! The hardware tick interrupt calls `SystickDriver::on_interrupt`, which
//! advances the clock and fires the alarm when its deadline is due.
use vstd::prelude::*;

verus! {

/// Number of independent alarm slots (the hardware has one comparator).
pub const ALARM_COUNT: usize = 1;

/// Free-running monotonic tick counter, sole time source.
///
/// The pair of words composes to `high * 2^32 + low`; `high` only advances
/// when `low` wraps past its maximum, so the composed value advances by
/// exactly one per tick interrupt.
#[derive(Debug, PartialEq, Eq, Copy, Clone)]
pub struct HardwareClock {
    pub low: u32,
    pub high: u32,
}

impl HardwareClock {
    /// Mathematical value of the tick counter.
    pub open spec fn spec_now(self) -> int {
        self.high * 0x1_0000_0000 + self.low
    }

    /// The counter one tick interrupt later: `low` is incremented; when it
    /// would overflow it resets to zero and `high` advances instead.
    pub open spec fn ticked(self) -> HardwareClock {
        if self.low == u32::MAX {
            HardwareClock { low: 0, high: (self.high + 1) as u32 }
        } else {
            HardwareClock { low: (self.low + 1) as u32, high: self.high }
        }
    }

    pub fn new() -> (r: Self)
        ensures
            r.spec_now() == 0,
    {
        HardwareClock { low: 0, high: 0 }
    }

    /// Restores a counter from its two words, for resuming from a snapshot.
    pub fn from_words(low: u32, high: u32) -> (r: Self)
        ensures
            r.low == low,
            r.high == high,
    {
        HardwareClock { low, high }
    }

    /// Composes the two words into the current tick value.
    ///
    /// The words are loaded `low` first; because `high` only advances when
    /// `low` wraps, a read torn by a concurrent increment is bounded to one
    /// tick of error and never runs backward. In this owned model the read
    /// is exact.
    pub fn now(&self) -> (r: u64)
        ensures
            r == self.spec_now(),
    {
        let low = self.low;
        let high = self.high;
        let r = ((high as u64) << 32u64) | (low as u64);
        proof {
            assert(((high as u64) << 32u64) | (low as u64)
                == (high as u64) * 0x1_0000_0000 + (low as u64)) by (bit_vector);
        }
        r
    }

    /// One hardware tick: advances the counter by exactly one.
    pub fn on_tick_interrupt(&mut self)
        requires
            old(self).spec_now() < u64::MAX,
        ensures
            *final(self) == old(self).ticked(),
            final(self).spec_now() == old(self).spec_now() + 1,
    {
        proof {
            lemma_ticked_increments(*old(self));
        }
        if self.low == u32::MAX {
            self.low = 0;
            self.high = self.high + 1;
        } else {
            self.low = self.low + 1;
        }
    }
}

/// A tick advances the composed counter by exactly one as long as the
/// counter has room left in 64 bits.
pub proof fn lemma_ticked_increments(c: HardwareClock)
    requires
        c.spec_now() < u64::MAX,
    ensures
        c.ticked().spec_now() == c.spec_now() + 1,
{
    if c.low == u32::MAX {
        assert(c.high < u32::MAX);
    }
}

/// The counter value reached after `k` tick interrupts from a fresh clock.
pub open spec fn clock_after_ticks(k: nat) -> HardwareClock
    decreases k,
{
    if k == 0 {
        HardwareClock { low: 0, high: 0 }
    } else {
        clock_after_ticks((k - 1) as nat).ticked()
    }
}

/// After `k` tick interrupts the clock reads exactly `k`: in particular,
/// after exactly `2^32` interrupts it reads `2^32` (the low word has wrapped
/// once and the high word has advanced once).
pub proof fn lemma_now_counts_ticks(k: nat)
    requires
        k <= u64::MAX,
    ensures
        clock_after_ticks(k).spec_now() == k,
    decreases k,
{
    if k > 0 {
        lemma_now_counts_ticks((k - 1) as nat);
        lemma_ticked_increments(clock_after_ticks((k - 1) as nat));
    }
}

/// After exactly `2^32` tick interrupts the clock reads exactly `2^32`:
/// the low word has wrapped to zero and the carry reached the high word.
pub proof fn lemma_full_low_word_wrap()
    ensures
        clock_after_ticks(0x1_0000_0000).spec_now() == 0x1_0000_0000,
{
    lemma_now_counts_ticks(0x1_0000_0000);
}

/// The clock is monotonic: over any sequence of tick interrupts, a later
/// observation of `now` is never smaller than an earlier one.
pub proof fn lemma_now_nondecreasing(k1: nat, k2: nat)
    requires
        k1 <= k2,
        k2 <= u64::MAX,
    ensures
        clock_after_ticks(k1).spec_now() <= clock_after_ticks(k2).spec_now(),
{
    lemma_now_counts_ticks(k1);
    lemma_now_counts_ticks(k2);
}

/// The alarm is due after a tick that moved the clock to `now_after`: it is
/// armed (a deadline of `u64::MAX` means disarmed) and the deadline lies at
/// most one tick ahead.
pub open spec fn spec_alarm_due(deadline: u64, now_after: int) -> bool {
    deadline != u64::MAX && deadline <= now_after + 1
}

/// How often the alarm fires over `k` tick interrupts from clock `c` with
/// deadline `deadline` armed, when no callback re-arms it: each tick advances
/// the clock, and a due alarm fires and is disarmed (deadline `u64::MAX`).
/// This mirrors `SystickDriver::on_interrupt` for a callback that requests
/// no new deadline.
pub open spec fn spec_fires_in_ticks(c: HardwareClock, deadline: u64, k: nat) -> nat
    decreases k,
{
    if k == 0 {
        0
    } else {
        let c1 = c.ticked();
        if spec_alarm_due(deadline, c1.spec_now()) {
            1 + spec_fires_in_ticks(c1, u64::MAX, (k - 1) as nat)
        } else {
            spec_fires_in_ticks(c1, deadline, (k - 1) as nat)
        }
    }
}

/// A disarmed alarm never fires, however many further tick interrupts
/// arrive. Together with `set_deadline`'s contract (a deadline that is not
/// in the future returns `false` and leaves the alarm disarmed), this says
/// that arming an already-passed deadline fires no callback, ever.
pub proof fn lemma_disarmed_never_fires(c: HardwareClock, k: nat)
    ensures
        spec_fires_in_ticks(c, u64::MAX, k) == 0,
    decreases k,
{
    if k > 0 {
        lemma_disarmed_never_fires(c.ticked(), (k - 1) as nat);
    }
}

/// An alarm armed for a future deadline fires exactly once over any run of
/// tick interrupts long enough to reach it (and not at all over a shorter
/// run), when its callback does not re-arm it: firing disarms the alarm, and
/// a disarmed alarm stays quiet.
pub proof fn lemma_armed_fires_exactly_once(c: HardwareClock, deadline: u64, k: nat)
    requires
        deadline != u64::MAX,
        deadline > c.spec_now(),
        c.spec_now() + k <= u64::MAX,
    ensures
        spec_fires_in_ticks(c, deadline, k) == if k >= 1 && deadline <= c.spec_now() + k + 1 {
            1nat
        } else {
            0nat
        },
    decreases k,
{
    if k > 0 {
        lemma_ticked_increments(c);
        let c1 = c.ticked();
        if spec_alarm_due(deadline, c1.spec_now()) {
            lemma_disarmed_never_fires(c1, (k - 1) as nat);
        } else {
            lemma_armed_fires_exactly_once(c1, deadline, (k - 1) as nat);
        }
    }
}

/// Handle to an allocated alarm slot, handed out by `allocate_alarm`.
#[derive(Debug, PartialEq, Eq, Copy, Clone)]
pub struct AlarmHandle {
    id: u8,
}

impl AlarmHandle {
    /// Index of the alarm slot this handle refers to.
    pub closed spec fn spec_id(self) -> int {
        self.id as int
    }

    pub fn id(&self) -> (r: u8)
        ensures
            r == self.spec_id(),
    {
        self.id
    }
}

/// The alarm's callback, stored by value in the alarm slot. When the alarm
/// fires the driver runs it and then arms the returned deadline, if any, so
/// a "sleep until" loop can request its next wakeup from inside the callback
/// without racing against the just-fired state.
pub trait AlarmCallback {
    fn on_alarm(&mut self) -> Option<u64>;
}

/// What a firing check did: nothing, because the alarm was not due, or a
/// fire, carrying the re-arm request the callback returned so callers can
/// see which deadline was stored on its account.
#[derive(Debug, PartialEq, Eq, Copy, Clone)]
pub enum FireOutcome {
    /// The alarm was not due; nothing changed.
    NotDue,
    /// The alarm fired; the callback asked for this new deadline.
    Fired(Option<u64>),
}

impl FireOutcome {
    pub fn fired(&self) -> (r: bool)
        ensures
            r == (self is Fired),
    {
        match self {
            FireOutcome::Fired(_) => true,
            FireOutcome::NotDue => false,
        }
    }
}

/// The deadline stored when a just-fired callback answers `rearm` at time
/// `now`: a requested deadline in the future is armed; a requested deadline
/// that has already passed, or no request, leaves the alarm disarmed.
pub open spec fn spec_rearmed_deadline(rearm: Option<u64>, now: u64) -> u64 {
    match rearm {
        Some(d) => if d > now {
            d
        } else {
            u64::MAX
        },
        None => u64::MAX,
    }
}

/// Single pending deadline plus callback, driven by the clock's interrupt.
///
/// A deadline of `u64::MAX` means "disarmed". The slot is allocated at most
/// once (capacity one, matching the single hardware comparator).
pub struct AlarmScheduler<C> {
    alarm_count: u8,
    deadline: u64,
    callback: Option<C>,
}

impl<C> AlarmScheduler<C> {
    /// How many alarm slots have been allocated so far.
    pub closed spec fn spec_count(self) -> int {
        self.alarm_count as int
    }

    /// The pending deadline; `u64::MAX` when disarmed.
    pub closed spec fn spec_deadline(self) -> u64 {
        self.deadline
    }

    pub closed spec fn spec_callback(self) -> Option<C> {
        self.callback
    }

    /// The alarm is due: it is armed and its deadline lies at most one tick
    /// ahead of `now` (the look-ahead tolerates interrupt latency).
    pub open spec fn should_fire_spec(self, now: u64) -> bool {
        self.spec_deadline() != u64::MAX && self.spec_deadline() <= now + 1
    }

    pub fn new() -> (r: Self)
        ensures
            r.spec_count() == 0,
            r.spec_deadline() == u64::MAX,
            r.spec_callback() is None,
    {
        AlarmScheduler { alarm_count: 0, deadline: u64::MAX, callback: None }
    }

    /// Claims the alarm slot. Succeeds at most `ALARM_COUNT` (one) times;
    /// once the slot is taken, every further call reports exhaustion.
    pub fn allocate(&mut self) -> (r: Option<AlarmHandle>)
        ensures
            r is Some <==> old(self).spec_count() < ALARM_COUNT as int,
            r matches Some(h) ==> h.spec_id() == old(self).spec_count()
                && final(self).spec_count() == old(self).spec_count() + 1,
            r is None ==> *final(self) == *old(self),
            final(self).spec_deadline() == old(self).spec_deadline(),
            final(self).spec_callback() == old(self).spec_callback(),
    {
        let old_count = self.alarm_count;
        if old_count < ALARM_COUNT as u8 {
            self.alarm_count = old_count + 1;
            Some(AlarmHandle { id: old_count })
        } else {
            None
        }
    }

    /// Binds (or rebinds) the callback run when the alarm fires. Must be
    /// called before `set_deadline` is relied upon.
    pub fn set_callback(&mut self, alarm: AlarmHandle, callback: C)
        requires
            alarm.spec_id() < ALARM_COUNT as int,
        ensures
            final(self).spec_callback() == Some(callback),
            final(self).spec_deadline() == old(self).spec_deadline(),
            final(self).spec_count() == old(self).spec_count(),
    {
        self.callback = Some(callback);
    }

    /// Arms the alarm for `timestamp`, read against the current time `now`.
    /// A deadline that has already passed will never fire: the alarm is
    /// disarmed on the spot and `false` is returned so the caller can handle
    /// the expiry synchronously instead of waiting forever.
    pub fn set_deadline(&mut self, alarm: AlarmHandle, timestamp: u64, now: u64) -> (armed: bool)
        requires
            alarm.spec_id() < ALARM_COUNT as int,
        ensures
            armed == (timestamp > now),
            armed ==> final(self).spec_deadline() == timestamp,
            !armed ==> final(self).spec_deadline() == u64::MAX,
            final(self).spec_callback() == old(self).spec_callback(),
            final(self).spec_count() == old(self).spec_count(),
    {
        self.deadline = timestamp;
        if timestamp <= now {
            self.deadline = u64::MAX;
            return false;
        }
        true
    }

    /// Stores the deadline a just-fired callback asked for, judged at time
    /// `now` under the same rule as `set_deadline`: a requested deadline in
    /// the future is armed and `true` is returned; a requested deadline that
    /// has already passed, or no request, leaves the alarm disarmed.
    pub fn apply_rearm(&mut self, rearm: Option<u64>, now: u64) -> (armed: bool)
        ensures
            final(self).spec_deadline() == spec_rearmed_deadline(rearm, now),
            armed == (match rearm {
                Some(d) => d > now,
                None => false,
            }),
            final(self).spec_callback() == old(self).spec_callback(),
            final(self).spec_count() == old(self).spec_count(),
    {
        match rearm {
            Some(d) => {
                if d > now {
                    self.deadline = d;
                    true
                } else {
                    self.deadline = u64::MAX;
                    false
                }
            },
            None => {
                self.deadline = u64::MAX;
                false
            },
        }
    }
}

impl<C: AlarmCallback> AlarmScheduler<C> {
    /// Fires the alarm if it is due at `now`. The deadline is reset to
    /// `u64::MAX` before the callback runs; the deadline the callback asks
    /// for is then stored by `apply_rearm`, so a re-arm requested from
    /// inside the callback is not lost to the just-fired state. The outcome
    /// carries the callback's answer, and the stored deadline is exactly
    /// `spec_rearmed_deadline` of that answer: disarmed without a request or
    /// with one that has already passed, else the requested deadline.
    pub fn fire_if_due(&mut self, now: u64) -> (r: FireOutcome)
        requires
            now < u64::MAX,
        ensures
            (r is Fired) == old(self).should_fire_spec(now),
            r is NotDue ==> *final(self) == *old(self),
            r matches FireOutcome::Fired(rearm) ==> final(self).spec_deadline()
                == spec_rearmed_deadline(rearm, now),
            r is Fired ==> final(self).spec_deadline() == u64::MAX
                || final(self).spec_deadline() > now,
            r is Fired ==> (final(self).spec_callback() is Some
                <==> old(self).spec_callback() is Some),
            final(self).spec_count() == old(self).spec_count(),
    {
        if self.deadline != u64::MAX && self.deadline <= now + 1 {
            // Disarm before the callback runs, so a request to re-arm does
            // not race against the just-fired state.
            self.deadline = u64::MAX;
            let mut rearm: Option<u64> = None;
            match &mut self.callback {
                Some(c) => {
                    rearm = c.on_alarm();
                },
                None => {},
            }
            let _ = self.apply_rearm(rearm, now);
            FireOutcome::Fired(rearm)
        } else {
            FireOutcome::NotDue
        }
    }
}

/// Clock and alarm joined under the hardware tick interrupt, mirroring the
/// one timer peripheral: the interrupt advances the clock and then fires the
/// alarm if its deadline is due.
pub struct SystickDriver<C> {
    pub clock: HardwareClock,
    pub alarm: AlarmScheduler<C>,
}

impl<C> SystickDriver<C> {
    pub fn new() -> (r: Self)
        ensures
            r.clock.spec_now() == 0,
            r.alarm.spec_count() == 0,
            r.alarm.spec_deadline() == u64::MAX,
            r.alarm.spec_callback() is None,
    {
        SystickDriver { clock: HardwareClock::new(), alarm: AlarmScheduler::new() }
    }

    /// Current tick count.
    pub fn now(&self) -> (r: u64)
        ensures
            r == self.clock.spec_now(),
    {
        self.clock.now()
    }

    pub fn allocate_alarm(&mut self) -> (r: Option<AlarmHandle>)
        ensures
            final(self).clock == old(self).clock,
            r is Some <==> old(self).alarm.spec_count() < ALARM_COUNT as int,
            r matches Some(h) ==> h.spec_id() == old(self).alarm.spec_count()
                && final(self).alarm.spec_count() == old(self).alarm.spec_count() + 1,
            r is None ==> final(self).alarm == old(self).alarm,
            final(self).alarm.spec_deadline() == old(self).alarm.spec_deadline(),
            final(self).alarm.spec_callback() == old(self).alarm.spec_callback(),
    {
        self.alarm.allocate()
    }

    pub fn set_alarm_callback(&mut self, alarm: AlarmHandle, callback: C)
        requires
            alarm.spec_id() < ALARM_COUNT as int,
        ensures
            final(self).clock == old(self).clock,
            final(self).alarm.spec_callback() == Some(callback),
            final(self).alarm.spec_deadline() == old(self).alarm.spec_deadline(),
            final(self).alarm.spec_count() == old(self).alarm.spec_count(),
    {
        self.alarm.set_callback(alarm, callback);
    }

    /// Arms the alarm for `timestamp`. Returns `false`, leaving the alarm
    /// disarmed, when `timestamp` does not lie in the future.
    pub fn set_alarm(&mut self, alarm: AlarmHandle, timestamp: u64) -> (armed: bool)
        requires
            alarm.spec_id() < ALARM_COUNT as int,
        ensures
            final(self).clock == old(self).clock,
            armed == (timestamp > old(self).clock.spec_now()),
            armed ==> final(self).alarm.spec_deadline() == timestamp,
            !armed ==> final(self).alarm.spec_deadline() == u64::MAX,
            final(self).alarm.spec_callback() == old(self).alarm.spec_callback(),
            final(self).alarm.spec_count() == old(self).alarm.spec_count(),
    {
        let now = self.clock.now();
        self.alarm.set_deadline(alarm, timestamp, now)
    }
}

impl<C: AlarmCallback> SystickDriver<C> {
    /// The hardware tick interrupt: advances the clock by one tick, then
    /// fires the alarm if its deadline lies at most one tick ahead of the
    /// new time. The outcome carries the callback's re-arm answer; the
    /// stored deadline is exactly `spec_rearmed_deadline` of that answer,
    /// judged at the new time, so a re-arm requested from inside the
    /// callback is not lost.
    pub fn on_interrupt(&mut self) -> (r: FireOutcome)
        requires
            old(self).clock.spec_now() + 2 <= u64::MAX,
        ensures
            final(self).clock == old(self).clock.ticked(),
            final(self).clock.spec_now() == old(self).clock.spec_now() + 1,
            (r is Fired) == old(self).alarm.should_fire_spec(
                (old(self).clock.spec_now() + 1) as u64),
            r is NotDue ==> final(self).alarm == old(self).alarm,
            r matches FireOutcome::Fired(rearm) ==> final(self).alarm.spec_deadline()
                == spec_rearmed_deadline(rearm, (old(self).clock.spec_now() + 1) as u64),
            r is Fired ==> final(self).alarm.spec_deadline() == u64::MAX
                || final(self).alarm.spec_deadline() > final(self).clock.spec_now(),
            r is Fired ==> (final(self).alarm.spec_callback() is Some
                <==> old(self).alarm.spec_callback() is Some),
            final(self).alarm.spec_count() == old(self).alarm.spec_count(),
    {
        self.clock.on_tick_interrupt();
        let now = self.clock.now();
        self.alarm.fire_if_due(now)
    }
}

} // verus!
