//! External interrupts (EXTI): the edge-triggered wait subsystem.
//!
//! Sixteen logical interrupt lines are multiplexed across pending waiters.
//! Pins PA5, PB5, PC5... all alias to line 5, so the registry is indexed by
//! line and at most one waiter per line can be active at a time — a fixed
//! capacity of the hardware, not an error surfaced at run time: a second
//! wait on a busy line silently replaces the previous waker.
//!
//! The registry owns the driver-visible state (the pending and armed
//! bitsets, one waker slot and one detector configuration per line). The
//! hardware edge interrupt hands in the controller's raw pending mask and
//! receives back the wakers to invoke and the lines to mask; the controller
//! register writes themselves stay with the interrupt glue.
use vstd::prelude::*;

use crate::Error;
use crate::InputError;
use crate::gpio::AnyPin;
use crate::gpio::Level;
use crate::gpio::PinConfig;
use crate::gpio::PinMode;
use crate::gpio::Pull;
use crate::gpio::Speed;

verus! {

/// Number of external interrupt lines.
pub const EXTI_COUNT: usize = 16;

/// Whether bit `l` is set in the 16-bit line set `x`.
pub open spec fn bit16(x: u16, l: u16) -> bool
    recommends
        l < 16,
{
    x & (1u16 << l) != 0
}

/// Setting bit `l` of a line set, seen line by line.
pub proof fn lemma_bit16_set(x: u16, l: u16, m: u16)
    requires
        l < 16,
        m < 16,
    ensures
        bit16(x | (1u16 << l), m) == (bit16(x, m) || m == l),
{
    assert(l < 16 && m < 16 ==> ((x | (1u16 << l)) & (1u16 << m) != 0) == ((x & (1u16 << m) != 0)
        || m == l)) by (bit_vector);
}

/// Clearing bit `l` of a line set, seen line by line.
pub proof fn lemma_bit16_clear(x: u16, l: u16, m: u16)
    requires
        l < 16,
        m < 16,
    ensures
        bit16(x & !(1u16 << l), m) == (bit16(x, m) && m != l),
{
    assert(l < 16 && m < 16 ==> ((x & !(1u16 << l)) & (1u16 << m) != 0) == ((x & (1u16 << m) != 0)
        && m != l)) by (bit_vector);
}

/// Union of two line sets, seen line by line.
pub proof fn lemma_bit16_or(x: u16, y: u16, m: u16)
    requires
        m < 16,
    ensures
        bit16(x | y, m) == (bit16(x, m) || bit16(y, m)),
{
    assert(m < 16 ==> (((x | y) & (1u16 << m) != 0) == ((x & (1u16 << m) != 0) || (y & (1u16 << m)
        != 0)))) by (bit_vector);
}

/// Intersection of two line sets, seen line by line.
pub proof fn lemma_bit16_and(x: u16, y: u16, m: u16)
    requires
        m < 16,
    ensures
        bit16(x & y, m) == (bit16(x, m) && bit16(y, m)),
{
    assert(m < 16 ==> (((x & y) & (1u16 << m) != 0) == ((x & (1u16 << m) != 0) && (y & (1u16 << m)
        != 0)))) by (bit_vector);
}

/// Removing one line set from another, seen line by line.
pub proof fn lemma_bit16_diff(x: u16, y: u16, m: u16)
    requires
        m < 16,
    ensures
        bit16(x & !y, m) == (bit16(x, m) && !bit16(y, m)),
{
    assert(m < 16 ==> (((x & !y) & (1u16 << m) != 0) == ((x & (1u16 << m) != 0) && !(y & (1u16
        << m) != 0)))) by (bit_vector);
}

/// Edge selection for a line's detector.
#[derive(Debug, Eq, PartialEq, Structural, Copy, Clone)]
pub enum EdgeKind {
    /// Notify on a rising edge only.
    Rising,
    /// Notify on a falling edge only.
    Falling,
    /// Notify on either edge.
    Any,
}

impl EdgeKind {
    /// Whether a detector set to `self` reports an edge of the given
    /// direction (`rising` true for a rising edge).
    pub open spec fn spec_reports(self, rising: bool) -> bool {
        match self {
            EdgeKind::Rising => rising,
            EdgeKind::Falling => !rising,
            EdgeKind::Any => true,
        }
    }

    pub fn reports(&self, rising: bool) -> (r: bool)
        ensures
            r == self.spec_reports(rising),
    {
        match self {
            EdgeKind::Rising => rising,
            EdgeKind::Falling => !rising,
            EdgeKind::Any => true,
        }
    }
}

/// Result of polling a waitable.
#[derive(Debug, Eq, PartialEq, Structural, Copy, Clone)]
pub enum PollResult {
    /// The awaited edge has fired.
    Ready,
    /// No edge yet; the registered waker will be invoked.
    Pending,
}

/// Suspend-capable handle for one wait on one line, handed out by
/// `begin_wait`. Every wait must end in either `poll` reporting `Ready` or
/// `end_wait`: ending the wait on all exit paths keeps a cancelled waiter
/// from leaving its line armed with a dangling waker behind.
#[derive(Debug)]
#[must_use]
pub struct EdgeWait {
    line: u8,
}

impl EdgeWait {
    /// The line this wait is registered on.
    pub closed spec fn spec_line(self) -> u16 {
        self.line as u16
    }

    pub fn line(&self) -> (r: u8)
        ensures
            r as u16 == self.spec_line(),
    {
        self.line
    }
}

/// Per-line waker storage plus the pending and armed bitsets.
///
/// `W` is the notification handle supplied by the task executor; invoking it
/// resumes the suspended task. The registry is agnostic to its shape.
pub struct EdgeWaitRegistry<W> {
    pending: u16,
    armed: u16,
    wakers: Vec<Option<W>>,
    kinds: Vec<EdgeKind>,
}

/// What the edge interrupt asks the glue to do: invoke these wakers (lowest
/// line first), mask the serviced lines in the controller so a second edge
/// before consumption does not re-fire, and clear the controller's pending
/// bits for all lines.
pub struct EdgeIrqAction<W> {
    pub wake: Vec<W>,
    pub mask_lines: u16,
}

/// The wakers of the lines set in `mask`, taken from `slots` in ascending
/// line order, skipping empty slots; the first `n` lines are considered.
pub open spec fn spec_gathered<W>(slots: Seq<Option<W>>, mask: u16, n: int) -> Seq<W>
    recommends
        n <= slots.len(),
    decreases n,
{
    if n <= 0 {
        Seq::empty()
    } else {
        let rest = spec_gathered(slots, mask, n - 1);
        if bit16(mask, (n - 1) as u16) {
            match slots[n - 1] {
                Option::Some(w) => rest.push(w),
                Option::None => rest,
            }
        } else {
            rest
        }
    }
}

impl<W> EdgeWaitRegistry<W> {
    /// An edge has fired on line `l` since it was armed and was not yet
    /// consumed.
    pub closed spec fn spec_pending(self) -> u16 {
        self.pending
    }

    /// A waiter currently expects notification on line `l`; lines that fire
    /// for unrelated reasons are ignored.
    pub closed spec fn spec_armed(self) -> u16 {
        self.armed
    }

    pub closed spec fn spec_wakers(self) -> Seq<Option<W>> {
        self.wakers@
    }

    pub closed spec fn spec_kinds(self) -> Seq<EdgeKind> {
        self.kinds@
    }

    pub open spec fn wf(self) -> bool {
        self.spec_wakers().len() == EXTI_COUNT && self.spec_kinds().len() == EXTI_COUNT
    }

    pub open spec fn is_pending(self, l: u16) -> bool {
        bit16(self.spec_pending(), l)
    }

    pub open spec fn is_armed(self, l: u16) -> bool {
        bit16(self.spec_armed(), l)
    }

    /// A fresh registry: nothing pending, nothing armed, no wakers.
    pub fn new() -> (r: Self)
        ensures
            r.wf(),
            r.spec_pending() == 0,
            r.spec_armed() == 0,
            forall|l: int| 0 <= l < 16 ==> r.spec_wakers()[l] is None,
            forall|l: int| 0 <= l < 16 ==> r.spec_kinds()[l] == EdgeKind::Any,
    {
        let mut wakers: Vec<Option<W>> = Vec::new();
        let mut kinds: Vec<EdgeKind> = Vec::new();
        let mut i: usize = 0;
        while i < EXTI_COUNT
            invariant
                i <= EXTI_COUNT,
                wakers@.len() == i,
                kinds@.len() == i,
                forall|l: int| 0 <= l < i ==> wakers@[l] is None,
                forall|l: int| 0 <= l < i ==> kinds@[l] == EdgeKind::Any,
            decreases EXTI_COUNT - i,
        {
            wakers.push(None);
            kinds.push(EdgeKind::Any);
            i = i + 1;
        }
        EdgeWaitRegistry { pending: 0, armed: 0, wakers, kinds }
    }

    /// Whether line `line` has an unconsumed edge recorded.
    pub fn is_line_pending(&self, line: u8) -> (r: bool)
        requires
            line < 16,
        ensures
            r == self.is_pending(line as u16),
    {
        self.pending & (1u16 << (line as u16)) != 0
    }

    /// Whether a waiter is armed on line `line`.
    pub fn is_line_armed(&self, line: u8) -> (r: bool)
        requires
            line < 16,
        ensures
            r == self.is_armed(line as u16),
    {
        self.armed & (1u16 << (line as u16)) != 0
    }

    /// Configures line `line` to notify on the given edge kind, arms it, and
    /// forgets any unconsumed edge from before. Must be called before the
    /// line can report an edge; safe to call again with a different kind. A
    /// line index out of the fixed 0-15 range is rejected.
    pub fn arm(&mut self, line: u8, kind: EdgeKind) -> (r: Result<(), Error<()>>)
        requires
            old(self).wf(),
        ensures
            final(self).wf(),
            line >= 16 ==> r == Result::<(), Error<()>>::Err(
                Error::UserInput(InputError::InvalidLine),
            ) && *final(self) == *old(self),
            line < 16 ==> r is Ok && final(self).spec_pending() == (old(self).spec_pending() & !(
            1u16 << (line as u16))) && final(self).spec_armed() == (old(self).spec_armed() | (1u16
                << (line as u16))) && final(self).spec_wakers() == old(self).spec_wakers()
                && final(self).spec_kinds() == old(self).spec_kinds().update(line as int, kind),
            line < 16 ==> forall|m: u16|
                m < 16 ==> final(self).is_pending(m) == (old(self).is_pending(m) && m != line
                    as u16),
            line < 16 ==> forall|m: u16|
                m < 16 ==> final(self).is_armed(m) == (old(self).is_armed(m) || m == line as u16),
    {
        if line >= 16 {
            return Err(Error::UserInput(InputError::InvalidLine));
        }
        self.kinds[line as usize] = kind;
        self.pending = self.pending & !(1u16 << (line as u16));
        self.armed = self.armed | (1u16 << (line as u16));
        proof {
            assert forall|m: u16| m < 16 implies final(self).is_pending(m) == (old(self).is_pending(m) && m != line as u16) by {
                lemma_bit16_clear(old(self).spec_pending(), line as u16, m);
            }
            assert forall|m: u16| m < 16 implies final(self).is_armed(m) == (old(self).is_armed(m)
                || m == line as u16) by {
                lemma_bit16_set(old(self).spec_armed(), line as u16, m);
            }
        }
        Ok(())
    }

    /// Begins a wait on line `line`: clears any stale pending edge from
    /// before the wait began and arms the line, so no edge from before this
    /// call is reported and no edge after it is lost. Both updates happen
    /// before the first poll. Returns the suspend-capable handle.
    pub fn begin_wait(&mut self, line: u8) -> (r: Result<EdgeWait, Error<()>>)
        requires
            old(self).wf(),
        ensures
            final(self).wf(),
            line >= 16 ==> r == Result::<EdgeWait, Error<()>>::Err(
                Error::UserInput(InputError::InvalidLine),
            ) && *final(self) == *old(self),
            line < 16 ==> (r matches Ok(w) && w.spec_line() == line as u16),
            line < 16 ==> final(self).spec_pending() == (old(self).spec_pending() & !(1u16 << (line
                as u16))) && final(self).spec_armed() == (old(self).spec_armed() | (1u16 << (line
                as u16))) && final(self).spec_wakers() == old(self).spec_wakers()
                && final(self).spec_kinds() == old(self).spec_kinds(),
            line < 16 ==> forall|m: u16|
                m < 16 ==> final(self).is_pending(m) == (old(self).is_pending(m) && m != line
                    as u16),
            line < 16 ==> forall|m: u16|
                m < 16 ==> final(self).is_armed(m) == (old(self).is_armed(m) || m == line as u16),
    {
        if line >= 16 {
            return Err(Error::UserInput(InputError::InvalidLine));
        }
        self.pending = self.pending & !(1u16 << (line as u16));
        self.armed = self.armed | (1u16 << (line as u16));
        proof {
            assert forall|m: u16| m < 16 implies final(self).is_pending(m) == (old(self).is_pending(m) && m != line as u16) by {
                lemma_bit16_clear(old(self).spec_pending(), line as u16, m);
            }
            assert forall|m: u16| m < 16 implies final(self).is_armed(m) == (old(self).is_armed(m)
                || m == line as u16) by {
                lemma_bit16_set(old(self).spec_armed(), line as u16, m);
            }
        }
        Ok(EdgeWait { line })
    }

    /// Polls a wait: registers `notify` in the line's waker slot, then
    /// checks the pending bit — in that order, so an edge firing between the
    /// two steps still finds the waker and no wakeup is lost. Reports
    /// `Ready` exactly when the line's edge has fired. A repeated wait on
    /// the same line replaces the previous waker.
    pub fn poll(&mut self, wait: &EdgeWait, notify: W) -> (r: PollResult)
        requires
            old(self).wf(),
            wait.spec_line() < 16,
        ensures
            final(self).wf(),
            final(self).spec_pending() == old(self).spec_pending(),
            final(self).spec_armed() == old(self).spec_armed(),
            final(self).spec_kinds() == old(self).spec_kinds(),
            final(self).spec_wakers() == old(self).spec_wakers().update(
                wait.spec_line() as int,
                Some(notify),
            ),
            r == (if old(self).is_pending(wait.spec_line()) {
                PollResult::Ready
            } else {
                PollResult::Pending
            }),
    {
        let line = wait.line();
        self.wakers[line as usize] = Some(notify);
        if self.pending & (1u16 << (line as u16)) != 0 {
            PollResult::Ready
        } else {
            PollResult::Pending
        }
    }

    /// The hardware edge interrupt. `raw` is the controller's raw
    /// pending-edge mask. The fired lines that are armed are serviced, all
    /// inside what is one critical section on the target: their pending bits
    /// are set, their armed bits are cleared, and their wakers are taken out
    /// for invocation, lowest line first. Fired lines nobody is armed on are
    /// ignored. The glue performs the returned action: it invokes the
    /// wakers, masks the serviced lines in the controller (so a second edge
    /// before consumption does not re-fire), and clears the controller's own
    /// pending bits for all lines.
    pub fn handle_edge_interrupt(&mut self, raw: u16) -> (out: EdgeIrqAction<W>)
        requires
            old(self).wf(),
        ensures
            final(self).wf(),
            out.mask_lines == (raw & old(self).spec_armed()),
            final(self).spec_pending() == (old(self).spec_pending() | (raw & old(self).spec_armed())),
            final(self).spec_armed() == (old(self).spec_armed() & !(raw & old(self).spec_armed())),
            final(self).spec_kinds() == old(self).spec_kinds(),
            forall|m: u16|
                m < 16 ==> final(self).is_pending(m) == (old(self).is_pending(m) || (bit16(raw, m)
                    && old(self).is_armed(m))),
            forall|m: u16| m < 16 ==> final(self).is_armed(m) == (old(self).is_armed(m) && !bit16(raw, m)),
            forall|m: u16|
                m < 16 ==> final(self).spec_wakers()[m as int] == (if bit16(raw, m) && old(self).is_armed(m) {
                    Option::<W>::None
                } else {
                    old(self).spec_wakers()[m as int]
                }),
            out.wake@ == spec_gathered(
                old(self).spec_wakers(),
                raw & old(self).spec_armed(),
                16,
            ),
    {
        let serviced = raw & self.armed;
        self.pending = self.pending | serviced;
        self.armed = self.armed & !serviced;
        let ghost w0 = self.wakers@;
        let ghost k0 = self.kinds@;
        let ghost p1 = self.pending;
        let ghost a1 = self.armed;
        let mut wake: Vec<W> = Vec::new();
        let mut i: u8 = 0;
        while i < 16
            invariant
                i <= 16,
                self.wakers@.len() == 16,
                self.pending == p1,
                self.armed == a1,
                self.kinds@ == k0,
                wake@ == spec_gathered(w0, serviced, i as int),
                forall|m: int| i <= m < 16 ==> self.wakers@[m] == w0[m],
                forall|m: int|
                    0 <= m < i && bit16(serviced, m as u16) ==> self.wakers@[m] is None,
                forall|m: int|
                    0 <= m < i && !bit16(serviced, m as u16) ==> self.wakers@[m] == w0[m],
            decreases 16 - i,
        {
            if serviced & (1u16 << (i as u16)) != 0 {
                let w = self.wakers[i as usize].take();
                match w {
                    Some(wk) => wake.push(wk),
                    None => {},
                }
            }
            i = i + 1;
        }
        proof {
            assert forall|m: u16| m < 16 implies bit16(p1, m) == (bit16(
                old(self).spec_pending(),
                m,
            ) || (bit16(raw, m) && bit16(old(self).spec_armed(), m))) by {
                lemma_bit16_and(raw, old(self).spec_armed(), m);
                lemma_bit16_or(old(self).spec_pending(), serviced, m);
            }
            assert forall|m: u16| m < 16 implies bit16(a1, m) == (bit16(old(self).spec_armed(), m)
                && !bit16(raw, m)) by {
                lemma_bit16_and(raw, old(self).spec_armed(), m);
                lemma_bit16_diff(old(self).spec_armed(), serviced, m);
            }
            assert forall|m: u16|
                m < 16 implies self.wakers@[m as int] == (if bit16(raw, m) && bit16(
                old(self).spec_armed(),
                m,
            ) {
                Option::<W>::None
            } else {
                w0[m as int]
            }) by {
                lemma_bit16_and(raw, old(self).spec_armed(), m);
            }
        }
        EdgeIrqAction { wake, mask_lines: serviced }
    }

    /// Ends a wait, whether it completed or was cancelled: disarms the line
    /// and clears its waker slot, so a dropped waiter cannot be notified
    /// into a dangling waker by a later edge.
    pub fn end_wait(&mut self, wait: EdgeWait) -> (r: ())
        requires
            old(self).wf(),
            wait.spec_line() < 16,
        ensures
            final(self).wf(),
            final(self).spec_pending() == old(self).spec_pending(),
            final(self).spec_armed() == (old(self).spec_armed() & !(1u16 << wait.spec_line())),
            final(self).spec_kinds() == old(self).spec_kinds(),
            final(self).spec_wakers() == old(self).spec_wakers().update(
                wait.spec_line() as int,
                Option::<W>::None,
            ),
            forall|m: u16|
                m < 16 ==> final(self).is_armed(m) == (old(self).is_armed(m) && m
                    != wait.spec_line()),
    {
        let line = wait.line();
        self.armed = self.armed & !(1u16 << (line as u16));
        self.wakers[line as usize] = None;
        proof {
            assert forall|m: u16| m < 16 implies final(self).is_armed(m) == (old(self).is_armed(m)
                && m != wait.spec_line()) by {
                lemma_bit16_clear(old(self).spec_armed(), wait.spec_line(), m);
            }
        }
    }
}

/// The detector mode that notifies the interrupt controller on the chosen
/// edges; choosing no edge leaves the default (either edge) in place.
pub open spec fn spec_it_mode(rising: bool, falling: bool) -> PinMode {
    if rising && falling {
        PinMode::ItRisingFalling
    } else if rising {
        PinMode::ItRising
    } else if falling {
        PinMode::ItFalling
    } else {
        PinMode::ItRisingFalling
    }
}

/// The event mode counterpart of `spec_it_mode`.
pub open spec fn spec_event_mode(rising: bool, falling: bool) -> PinMode {
    if rising && falling {
        PinMode::EvtRisingFalling
    } else if rising {
        PinMode::EvtRising
    } else if falling {
        PinMode::EvtFalling
    } else {
        PinMode::EvtRisingFalling
    }
}

/// EXTI input driver: a GPIO input augmented with edge-interrupt capability.
///
/// This is separate from the plain input because it owns the pin's EXTI
/// line, a limited resource: pins PA5, PB5, PC5... all use line 5, so only
/// one of them can use EXTI at a time.
pub struct ExtiInput {
    pin: AnyPin,
}

impl ExtiInput {
    pub closed spec fn spec_pin(self) -> AnyPin {
        self.pin
    }

    pub open spec fn wf(self) -> bool {
        self.spec_pin().wf()
    }

    /// The interrupt line the pin aliases to.
    pub open spec fn spec_line(self) -> u16 {
        choose|k: u16| k < 16 && self.spec_pin().pin == (1u16 << k)
    }

    /// Create an EXTI input: the pin becomes an interrupt source for either
    /// edge with the given pull and speed. (On the target this also routes
    /// and enables the line's interrupt vector.)
    pub fn new(pin: AnyPin, pull: Pull, speed: Speed) -> (r: Self)
        requires
            pin.wf(),
        ensures
            r.wf(),
            r.spec_pin() == (AnyPin {
                c_init_type: PinConfig {
                    mode: PinMode::ItRisingFalling,
                    pull,
                    speed,
                    ..pin.c_init_type
                },
                ..pin
            }),
    {
        let mut pin = pin;
        pin.c_init_type.speed = speed;
        pin.c_init_type.mode = PinMode::ItRisingFalling;
        pin.c_init_type.pull = pull;
        Self { pin }
    }

    /// Select which edges of this pin raise the line's interrupt.
    pub fn set_as_it(&mut self, rising: bool, falling: bool)
        ensures
            final(self).spec_pin() == (AnyPin {
                c_init_type: PinConfig {
                    mode: spec_it_mode(rising, falling),
                    ..old(self).spec_pin().c_init_type
                },
                ..old(self).spec_pin()
            }),
            final(self).wf() == old(self).wf(),
    {
        let mut gpio_mode = PinMode::ItRisingFalling;
        if rising && falling {
            gpio_mode = PinMode::ItRisingFalling;
        } else if rising && !falling {
            gpio_mode = PinMode::ItRising;
        } else if !rising && falling {
            gpio_mode = PinMode::ItFalling;
        }
        self.pin.c_init_type.mode = gpio_mode;
    }

    /// Select which edges of this pin raise the line's event signal.
    pub fn set_as_event(&mut self, rising: bool, falling: bool)
        ensures
            final(self).spec_pin() == (AnyPin {
                c_init_type: PinConfig {
                    mode: spec_event_mode(rising, falling),
                    ..old(self).spec_pin().c_init_type
                },
                ..old(self).spec_pin()
            }),
            final(self).wf() == old(self).wf(),
    {
        let mut gpio_mode = PinMode::EvtRisingFalling;
        if rising && falling {
            gpio_mode = PinMode::EvtRisingFalling;
        } else if rising && !falling {
            gpio_mode = PinMode::EvtRising;
        } else if !rising && falling {
            gpio_mode = PinMode::EvtFalling;
        }
        self.pin.c_init_type.mode = gpio_mode;
    }

    /// Get whether the pin is high.
    pub fn is_high(&self) -> (r: bool)
        ensures
            r == (self.spec_pin().level is High),
    {
        self.pin.is_high()
    }

    /// Get whether the pin is low.
    pub fn is_low(&self) -> (r: bool)
        ensures
            r == (self.spec_pin().level is Low),
    {
        self.pin.is_low()
    }

    /// Get the pin level.
    pub fn get_level(&self) -> (r: Level)
        ensures
            r == self.spec_pin().level,
    {
        self.pin.get_level()
    }

    /// Readies a wait on this pin's line for the given edge kind: selects
    /// the detector edges, arms the line, and forgets any stale edge from
    /// before, so only an edge after this call can complete the wait.
    fn begin_wait_for_edge<W>(&mut self, reg: &mut EdgeWaitRegistry<W>, kind: EdgeKind) -> (r:
        EdgeWait)
        requires
            old(self).wf(),
            old(reg).wf(),
        ensures
            final(self).wf(),
            final(reg).wf(),
            final(self).spec_pin() == (AnyPin {
                c_init_type: PinConfig {
                    mode: spec_it_mode(kind is Rising || kind is Any, kind is Falling || kind
                        is Any),
                    ..old(self).spec_pin().c_init_type
                },
                ..old(self).spec_pin()
            }),
            r.spec_line() == old(self).spec_line(),
            final(reg).spec_pending() == (old(reg).spec_pending() & !(1u16 << old(self).spec_line())),
            final(reg).spec_armed() == (old(reg).spec_armed() | (1u16 << old(self).spec_line())),
            final(reg).spec_wakers() == old(reg).spec_wakers(),
            final(reg).spec_kinds() == old(reg).spec_kinds().update(
                old(self).spec_line() as int,
                kind,
            ),
    {
        let rising = match kind {
            EdgeKind::Rising => true,
            EdgeKind::Falling => false,
            EdgeKind::Any => true,
        };
        let falling = match kind {
            EdgeKind::Rising => false,
            EdgeKind::Falling => true,
            EdgeKind::Any => true,
        };
        self.set_as_it(rising, falling);
        let line = self.line();
        let _ = reg.arm(line, kind);
        EdgeWait { line }
    }

    /// Readies a wait until the pin is high. When the pin is already high
    /// the condition short-circuits before anything is armed, avoiding an
    /// unnecessary suspend, and nothing is changed; otherwise the waitable
    /// for the next rising edge is returned.
    pub fn begin_wait_for_high<W>(&mut self, reg: &mut EdgeWaitRegistry<W>) -> (r: Option<EdgeWait>)
        requires
            old(self).wf(),
            old(reg).wf(),
        ensures
            final(self).wf(),
            final(reg).wf(),
            r is None <==> old(self).spec_pin().level is High,
            r is None ==> *final(self) == *old(self) && *final(reg) == *old(reg),
            r matches Some(w) ==> w.spec_line() == old(self).spec_line() && final(self).spec_pin() == (AnyPin {
                c_init_type: PinConfig {
                    mode: PinMode::ItRising,
                    ..old(self).spec_pin().c_init_type
                },
                ..old(self).spec_pin()
            }) && final(reg).spec_pending() == (old(reg).spec_pending() & !(1u16 << old(self).spec_line())) && final(reg).spec_armed() == (old(reg).spec_armed() | (1u16 << old(self).spec_line())) && final(reg).spec_wakers() == old(reg).spec_wakers() && final(reg).spec_kinds() == old(reg).spec_kinds().update(
                old(self).spec_line() as int,
                EdgeKind::Rising,
            ),
    {
        if self.is_high() {
            return None;
        }
        Some(self.begin_wait_for_edge(reg, EdgeKind::Rising))
    }

    /// Readies a wait until the pin is low. When the pin is already low
    /// the condition short-circuits before anything is armed, avoiding an
    /// unnecessary suspend, and nothing is changed; otherwise the waitable
    /// for the next falling edge is returned.
    pub fn begin_wait_for_low<W>(&mut self, reg: &mut EdgeWaitRegistry<W>) -> (r: Option<EdgeWait>)
        requires
            old(self).wf(),
            old(reg).wf(),
        ensures
            final(self).wf(),
            final(reg).wf(),
            r is None <==> old(self).spec_pin().level is Low,
            r is None ==> *final(self) == *old(self) && *final(reg) == *old(reg),
            r matches Some(w) ==> w.spec_line() == old(self).spec_line() && final(self).spec_pin() == (AnyPin {
                c_init_type: PinConfig {
                    mode: PinMode::ItFalling,
                    ..old(self).spec_pin().c_init_type
                },
                ..old(self).spec_pin()
            }) && final(reg).spec_pending() == (old(reg).spec_pending() & !(1u16 << old(self).spec_line())) && final(reg).spec_armed() == (old(reg).spec_armed() | (1u16 << old(self).spec_line())) && final(reg).spec_wakers() == old(reg).spec_wakers() && final(reg).spec_kinds() == old(reg).spec_kinds().update(
                old(self).spec_line() as int,
                EdgeKind::Falling,
            ),
    {
        if self.is_low() {
            return None;
        }
        Some(self.begin_wait_for_edge(reg, EdgeKind::Falling))
    }

    /// Readies a wait for the next rising edge. If the pin is already high
    /// the wait completes only after it goes low and back high.
    pub fn begin_wait_for_rising_edge<W>(&mut self, reg: &mut EdgeWaitRegistry<W>) -> (r: EdgeWait)
        requires
            old(self).wf(),
            old(reg).wf(),
        ensures
            final(self).wf(),
            final(reg).wf(),
            final(self).spec_pin() == (AnyPin {
                c_init_type: PinConfig {
                    mode: PinMode::ItRising,
                    ..old(self).spec_pin().c_init_type
                },
                ..old(self).spec_pin()
            }),
            r.spec_line() == old(self).spec_line(),
            final(reg).spec_pending() == (old(reg).spec_pending() & !(1u16 << old(self).spec_line())),
            final(reg).spec_armed() == (old(reg).spec_armed() | (1u16 << old(self).spec_line())),
            final(reg).spec_wakers() == old(reg).spec_wakers(),
            final(reg).spec_kinds() == old(reg).spec_kinds().update(
                old(self).spec_line() as int,
                EdgeKind::Rising,
            ),
    {
        self.begin_wait_for_edge(reg, EdgeKind::Rising)
    }

    /// Readies a wait for the next falling edge. If the pin is already low
    /// the wait completes only after it goes high and back low.
    pub fn begin_wait_for_falling_edge<W>(&mut self, reg: &mut EdgeWaitRegistry<W>) -> (r: EdgeWait)
        requires
            old(self).wf(),
            old(reg).wf(),
        ensures
            final(self).wf(),
            final(reg).wf(),
            final(self).spec_pin() == (AnyPin {
                c_init_type: PinConfig {
                    mode: PinMode::ItFalling,
                    ..old(self).spec_pin().c_init_type
                },
                ..old(self).spec_pin()
            }),
            r.spec_line() == old(self).spec_line(),
            final(reg).spec_pending() == (old(reg).spec_pending() & !(1u16 << old(self).spec_line())),
            final(reg).spec_armed() == (old(reg).spec_armed() | (1u16 << old(self).spec_line())),
            final(reg).spec_wakers() == old(reg).spec_wakers(),
            final(reg).spec_kinds() == old(reg).spec_kinds().update(
                old(self).spec_line() as int,
                EdgeKind::Falling,
            ),
    {
        self.begin_wait_for_edge(reg, EdgeKind::Falling)
    }

    /// Readies a wait for the next edge in either direction.
    pub fn begin_wait_for_any_edge<W>(&mut self, reg: &mut EdgeWaitRegistry<W>) -> (r: EdgeWait)
        requires
            old(self).wf(),
            old(reg).wf(),
        ensures
            final(self).wf(),
            final(reg).wf(),
            final(self).spec_pin() == (AnyPin {
                c_init_type: PinConfig {
                    mode: PinMode::ItRisingFalling,
                    ..old(self).spec_pin().c_init_type
                },
                ..old(self).spec_pin()
            }),
            r.spec_line() == old(self).spec_line(),
            final(reg).spec_pending() == (old(reg).spec_pending() & !(1u16 << old(self).spec_line())),
            final(reg).spec_armed() == (old(reg).spec_armed() | (1u16 << old(self).spec_line())),
            final(reg).spec_wakers() == old(reg).spec_wakers(),
            final(reg).spec_kinds() == old(reg).spec_kinds().update(
                old(self).spec_line() as int,
                EdgeKind::Any,
            ),
    {
        self.begin_wait_for_edge(reg, EdgeKind::Any)
    }

    /// The line this input is multiplexed onto.
    pub fn line(&self) -> (r: u8)
        requires
            self.wf(),
        ensures
            r as u16 == self.spec_line(),
            r < 16,
            self.spec_pin().pin == (1u16 << (r as u16)),
    {
        let r = self.pin.line();
        proof {
            assert(r < 16 && self.spec_pin().pin == (1u16 << (r as u16)));
            let k = self.spec_line();
            assert(k < 16 && self.spec_pin().pin == (1u16 << k));
            assert(forall|a: u16, b: u16| a < 16 && b < 16 && (1u16 << a) == (1u16 << b) ==> a == b)
                by (bit_vector);
        }
        r
    }
}


/// For every line: `begin_wait` on a line followed by an edge interrupt
/// whose raw mask contains that line makes the next `poll` on it report
/// `Ready`, and a fresh `begin_wait` afterwards sees no stale pending bit.
/// The intermediate words below are exactly how the contracts of
/// `begin_wait`, `handle_edge_interrupt` and `poll` relate the states.
pub proof fn lemma_wait_edge_poll_ready(p0: u16, a0: u16, raw: u16, line: u16)
    requires
        line < 16,
        bit16(raw, line),
    ensures
        ({
            // the pending and armed sets after begin_wait(line)
            let p1 = p0 & !(1u16 << line);
            let a1 = a0 | (1u16 << line);
            // the pending set after handle_edge_interrupt(raw)
            let p2 = p1 | (raw & a1);
            // poll on the line now reports Ready ...
            bit16(p2, line)
            // ... and a fresh begin_wait clears the line's pending bit again
            && !bit16(p2 & !(1u16 << line), line)
        }),
{
    assert(line < 16 && raw & (1u16 << line) != 0 ==> ((p0 & !(1u16 << line)) | (raw & (a0 | (1u16
        << line)))) & (1u16 << line) != 0 && ((((p0 & !(1u16 << line)) | (raw & (a0 | (1u16
        << line)))) & !(1u16 << line)) & (1u16 << line)) == 0) by (bit_vector);
}

} // verus!
