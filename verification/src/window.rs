//! The tick buffer: inputs gathered between ticks, and the clock that turns
//! elapsed time into fixed simulation steps.
//!
//! Time is a count of nanoseconds on a monotonic clock whose origin the
//! caller chooses.

use vstd::prelude::*;
use crate::input::Input;

verus! {

/// Length of one simulation step, in nanoseconds (250 ms).
pub const TICK_NANOS: u64 = 250_000_000;

/// The time that passed between two readings of the clock; a reading that
/// lies before the previous one counts as no time at all.
pub open spec fn elapsed_between(last: u64, now: u64) -> nat {
    if now >= last {
        (now - last) as nat
    } else {
        0
    }
}

/// What a `Window` is, to its callers.
pub struct WindowView {
    /// The clock reading of the last cycle (or of construction).
    pub last: u64,
    /// Time that has passed but has not yet been simulated.
    pub accumulated: u64,
    /// The inputs waiting for the next tick, oldest first.
    pub inputs: Seq<Input>,
}

impl WindowView {
    /// A window that has just been created at time `now`.
    pub open spec fn fresh(now: u64) -> WindowView {
        WindowView { last: now, accumulated: 0, inputs: Seq::empty() }
    }

    /// The unsimulated time on hand once the clock reads `now`.
    pub open spec fn backlog(self, now: u64) -> nat {
        self.accumulated as nat + elapsed_between(self.last, now)
    }

    /// The number of ticks that a cycle at time `now` runs.
    pub open spec fn ticks_due(self, now: u64) -> nat {
        self.backlog(now) / (TICK_NANOS as nat)
    }

    /// The inputs that every tick of the next cycle is handed.
    pub open spec fn snapshot(self) -> Seq<Input> {
        self.inputs
    }

    /// The window after one more input has arrived.
    pub open spec fn pushed(self, input: Input) -> WindowView {
        WindowView { inputs: self.inputs.push(input), ..self }
    }

    /// The window after a cycle at time `now`: the clock is moved on, whole
    /// ticks are taken out of the backlog, and the inputs are dropped if at
    /// least one tick has seen them.
    pub open spec fn cycled(self, now: u64) -> WindowView {
        WindowView {
            last: now,
            accumulated: (self.backlog(now) % (TICK_NANOS as nat)) as u64,
            inputs: if self.ticks_due(now) > 0 {
                Seq::empty()
            } else {
                self.inputs
            },
        }
    }

    /// The window after one cycle for each reading in `nows`, in order.
    pub open spec fn cycled_all(self, nows: Seq<u64>) -> WindowView
        decreases nows.len(),
    {
        if nows.len() == 0 {
            self
        } else {
            self.cycled(nows[0]).cycled_all(nows.drop_first())
        }
    }

    /// The number of ticks run by one cycle for each reading in `nows`.
    pub open spec fn ticks_all(self, nows: Seq<u64>) -> nat
        decreases nows.len(),
    {
        if nows.len() == 0 {
            0
        } else {
            self.ticks_due(nows[0]) + self.cycled(nows[0]).ticks_all(nows.drop_first())
        }
    }
}

/// Whether the readings never go backwards, starting from `from`.
pub open spec fn monotonic_from(from: u64, nows: Seq<u64>) -> bool {
    &&& forall|i: int| 0 <= i < nows.len() ==> from <= #[trigger] nows[i]
    &&& forall|i: int, j: int| 0 <= i <= j < nows.len() ==> nows[i] <= nows[j]
}

/// The last clock reading and the time not yet simulated, which is always
/// less than one tick.
struct TickClock {
    curr_time: u64,
    exec_time: u64,
}

impl TickClock {
    #[verifier::type_invariant]
    spec fn carries_less_than_a_tick(&self) -> bool {
        self.exec_time < TICK_NANOS
    }
}

/// Buffers inputs and paces the simulation at a fixed tick.
pub struct Window {
    clock: TickClock,
    input_buffer: Vec<Input>,
}

impl View for Window {
    type V = WindowView;

    closed spec fn view(&self) -> WindowView {
        WindowView {
            last: self.clock.curr_time,
            accumulated: self.clock.exec_time,
            inputs: self.input_buffer@,
        }
    }
}

impl Window {
    /// A window with nothing buffered and nothing accumulated, created when
    /// the clock reads `now`.
    pub fn new(now: u64) -> (w: Self)
        ensures
            w@ == WindowView::fresh(now),
    {
        Self { clock: TickClock { curr_time: now, exec_time: 0 }, input_buffer: Vec::new() }
    }

    /// Appends `input` behind the inputs already waiting.
    pub fn push_input(&mut self, input: Input)
        ensures
            final(self)@ == old(self)@.pushed(input),
    {
        self.input_buffer.push(input);
    }

    /// The clock reading of the last cycle.
    pub fn last_time(&self) -> (t: u64)
        ensures
            t == self@.last,
    {
        self.clock.curr_time
    }

    /// The time carried over to the next cycle; always less than a tick.
    pub fn accumulated(&self) -> (t: u64)
        ensures
            t == self@.accumulated,
            t < TICK_NANOS,
    {
        proof {
            use_type_invariant(&self.clock);
        }
        self.clock.exec_time
    }

    /// The inputs waiting for the next tick, oldest first.
    pub fn inputs(&self) -> (s: &[Input])
        ensures
            s@ == self@.inputs,
    {
        self.input_buffer.as_slice()
    }

    /// Moves the clock on to `now` and runs every tick that has become due.
    ///
    /// `update` is called once per due tick, each time with the tick length
    /// and the inputs that were waiting when the cycle began: the
    /// precondition asks of `update` only that it accepts exactly these
    /// arguments, and where a tick was due, `update` has returned from a
    /// call with them. The inputs are dropped once, after the last tick, and
    /// kept if no tick was due. A reading that lies before the last one
    /// adds no time. Returns the number of ticks run.
    pub fn cycle<F: Fn(u64, &[Input])>(&mut self, now: u64, update: F) -> (ticks: u64)
        requires
            forall|inputs: &[Input]|
                inputs@ == old(self)@.snapshot() ==> call_requires(update, (TICK_NANOS, inputs)),
        ensures
            ticks == old(self)@.ticks_due(now),
            final(self)@ == old(self)@.cycled(now),
            final(self)@.accumulated < TICK_NANOS,
            ticks > 0 ==> exists|inputs: &[Input]|
                inputs@ == old(self)@.snapshot() && call_ensures(
                    update,
                    (TICK_NANOS, inputs),
                    (),
                ),
    {
        proof {
            use_type_invariant(&self.clock);
        }
        let elapsed: u64 = if now >= self.clock.curr_time {
            now - self.clock.curr_time
        } else {
            0
        };
        let ghost before = self@;
        let ghost backlog = before.backlog(now);
        let mut remaining: u128 = self.clock.exec_time as u128 + elapsed as u128;
        let mut ticks: u64 = 0;
        while remaining >= TICK_NANOS as u128
            invariant
                self@ == before,
                backlog == before.backlog(now),
                backlog < TICK_NANOS + 0x1_0000_0000_0000_0000,
                ticks * TICK_NANOS + remaining == backlog,
                forall|inputs: &[Input]|
                    inputs@ == before.inputs ==> call_requires(update, (TICK_NANOS, inputs)),
                ticks > 0 ==> exists|inputs: &[Input]|
                    inputs@ == before.inputs && call_ensures(update, (TICK_NANOS, inputs), ()),
            decreases remaining,
        {
            let inputs = self.input_buffer.as_slice();
            update(TICK_NANOS, inputs);
            assert(inputs@ == before.inputs && call_ensures(update, (TICK_NANOS, inputs), ()));
            remaining = remaining - TICK_NANOS as u128;
            ticks = ticks + 1;
        }
        assert(ticks == backlog / (TICK_NANOS as nat) && remaining == backlog % (TICK_NANOS as nat))
            by (nonlinear_arith)
            requires
                ticks * TICK_NANOS + remaining == backlog,
                0 <= remaining < TICK_NANOS,
                TICK_NANOS > 0,
        ;
        if ticks > 0 {
            self.input_buffer.clear();
        }
        self.clock = TickClock { curr_time: now, exec_time: remaining as u64 };
        ticks
    }
}

/// Ticks are neither lost nor invented: over any run of cycles whose clock
/// readings never go backwards, the ticks run add up to the whole ticks
/// contained in the time carried in plus the time from the window's last
/// reading to the final one, and what is carried out is the remainder, less
/// than one tick. For a fresh window the time carried in is zero, so the
/// count is the total elapsed time divided by the tick length, rounded down.
pub proof fn lemma_ticks_cover_elapsed(w: WindowView, nows: Seq<u64>)
    requires
        w.accumulated < TICK_NANOS,
        nows.len() > 0,
        monotonic_from(w.last, nows),
    ensures
        w.ticks_all(nows) == (w.accumulated + (nows.last() - w.last)) / (TICK_NANOS as int),
        w.accumulated == 0 ==> w.ticks_all(nows) == (nows.last() - w.last) / (TICK_NANOS as int),
        w.cycled_all(nows).accumulated == (w.accumulated + (nows.last() - w.last)) % (
        TICK_NANOS as int),
        w.cycled_all(nows).accumulated < TICK_NANOS,
        w.cycled_all(nows).last == nows.last(),
    decreases nows.len(),
{
    let tick = TICK_NANOS as int;
    let first = nows[0];
    let rest = nows.drop_first();
    let backlog = w.accumulated + (first - w.last);
    let next = w.cycled(first);
    assert(w.backlog(first) == backlog);
    assert(next.accumulated == backlog % tick);
    if rest.len() == 0 {
        assert(next.cycled_all(rest) == next);
        assert(next.ticks_all(rest) == 0);
        assert(nows.last() == first);
    } else {
        assert(rest.last() == nows.last());
        assert forall|i: int| 0 <= i < rest.len() implies next.last <= #[trigger] rest[i] by {
            assert(rest[i] == nows[i + 1]);
        }
        assert forall|i: int, j: int| 0 <= i <= j < rest.len() implies rest[i] <= rest[j] by {
            assert(rest[i] == nows[i + 1]);
            assert(rest[j] == nows[j + 1]);
        }
        lemma_ticks_cover_elapsed(next, rest);
        let later = nows.last() - first;
        assert((backlog + later) / tick == backlog / tick + (backlog % tick + later) / tick && (
        backlog + later) % tick == (backlog % tick + later) % tick) by (nonlinear_arith)
            requires
                tick > 0,
                backlog >= 0,
                later >= 0,
        ;
    }
}

/// An input that has arrived is part of what every tick of the next cycle
/// is handed; it is gone after a cycle that ran at least one tick, and is
/// still waiting, behind the inputs that arrived before it, after a cycle
/// that ran none.
pub proof fn lemma_inputs_cleared_once_seen(w: WindowView, input: Input, now: u64)
    ensures
        w.pushed(input).snapshot() == w.inputs.push(input),
        w.pushed(input).snapshot().contains(input),
        w.pushed(input).ticks_due(now) > 0 ==> w.pushed(input).cycled(now).inputs.len() == 0,
        w.pushed(input).ticks_due(now) == 0 ==> w.pushed(input).cycled(now).inputs
            == w.inputs.push(input),
{
    let after = w.inputs.push(input);
    assert(after[after.len() - 1] == input);
}

} // verus!
