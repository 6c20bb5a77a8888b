//! The playback state machine: which word is shown, whether the reader is
//! playing, at what rate, and when the word last changed.
//!
//! Time is a count of milliseconds from an origin that the caller chooses. The
//! machine never reads a clock: every operation that depends on time takes the
//! current instant as an argument.

use vstd::prelude::*;

verus! {

/// The slowest rate, in words per minute.
pub const MIN_RATE: u32 = 25;

/// The amount by which one command changes the rate.
pub const RATE_STEP: u32 = 25;

/// The largest rate that the counter holds; increases stop here.
pub const MAX_RATE: u32 = 0xffff_ffff;

/// Milliseconds in one minute.
pub const MINUTE_MS: u64 = 60_000;

/// How long the loop waits for input while nothing is scheduled.
pub const POLL_INTERVAL_MS: u64 = 100;

/// Time for which one word stays on screen at `rate` words per minute, in
/// milliseconds. The quotient is rounded down.
pub open spec fn interval_ms(rate: nat) -> nat
    recommends
        rate > 0,
{
    (MINUTE_MS as nat) / rate
}

/// What the reader is doing.
#[derive(Clone, Copy, Debug, PartialEq, Eq, Structural)]
pub enum Mode {
    /// A word is shown and stays until a command arrives.
    Paused,
    /// Words follow each other at the current rate.
    Playing,
    /// The last word has been left behind.
    Finished,
}

/// Mathematical model of the playback state.
pub struct Playback {
    /// Number of words in the text.
    pub len: nat,
    /// Position of the current word; `len` once the text has ended.
    pub index: nat,
    /// Words per minute.
    pub rate: nat,
    /// Whether automatic advancement is suspended.
    pub paused: bool,
    /// Instant at which the clock for the current word was started.
    pub last_advance: nat,
}

impl Playback {
    /// The invariant of the state: there is a text, the position is within it
    /// or just behind it, the rate is within its limits, and a reader that has
    /// run off the end is paused.
    pub open spec fn wf(self) -> bool {
        &&& self.len >= 1
        &&& self.index <= self.len
        &&& MIN_RATE <= self.rate <= MAX_RATE
        &&& self.index == self.len ==> self.paused
    }

    /// The state in which reading starts: paused on the first word. A rate
    /// below the minimum is raised to it.
    pub open spec fn initial(len: nat, rate: nat, now: nat) -> Playback {
        Playback {
            len,
            index: 0,
            rate: if rate < MIN_RATE { MIN_RATE as nat } else { rate },
            paused: true,
            last_advance: now,
        }
    }

    /// Whether the text has ended: the position stands behind the last word.
    pub open spec fn finished(self) -> bool {
        self.index == self.len
    }

    /// What the reader is doing. A reader behind the end is finished, whatever
    /// its pause flag says.
    pub open spec fn mode(self) -> Mode {
        if self.finished() {
            Mode::Finished
        } else if self.paused {
            Mode::Paused
        } else {
            Mode::Playing
        }
    }

    /// Position of the last word.
    pub open spec fn last_index(self) -> nat {
        (self.len - 1) as nat
    }

    /// Time for which the current rate keeps a word on screen.
    pub open spec fn interval(self) -> nat {
        interval_ms(self.rate)
    }

    /// Time since the clock of the current word was started; zero if `now`
    /// lies before that instant.
    pub open spec fn elapsed(self, now: nat) -> nat {
        if now >= self.last_advance {
            (now - self.last_advance) as nat
        } else {
            0
        }
    }

    /// Whether an automatic advance is owed at `now`.
    pub open spec fn due(self, now: nat) -> bool {
        !self.paused && self.elapsed(now) >= self.interval()
    }

    /// Pause or resume. Once the text has ended there is nothing to resume,
    /// and the reader stays paused. The clock restarts either way, so that a
    /// resumed reader waits a full interval before it advances.
    pub open spec fn toggle_pause(self, now: nat) -> Playback {
        Playback { paused: self.finished() || !self.paused, last_advance: now, ..self }
    }

    /// Move one word ahead, stopping at the last word. From behind the end the
    /// reader comes back to the last word. The clock restarts.
    pub open spec fn step_forward(self, now: nat) -> Playback {
        Playback {
            index: if self.index + 1 < self.len {
                (self.index + 1) as nat
            } else {
                self.last_index()
            },
            last_advance: now,
            ..self
        }
    }

    /// Move one word back, stopping at the first word. The clock restarts.
    pub open spec fn step_backward(self, now: nat) -> Playback {
        Playback {
            index: if self.index == 0 {
                0
            } else {
                (self.index - 1) as nat
            },
            last_advance: now,
            ..self
        }
    }

    /// Raise the rate by one step, stopping at the largest rate.
    pub open spec fn increase_rate(self) -> Playback {
        Playback {
            rate: if self.rate + RATE_STEP <= MAX_RATE {
                (self.rate + RATE_STEP) as nat
            } else {
                MAX_RATE as nat
            },
            ..self
        }
    }

    /// Lower the rate by one step, stopping at the smallest rate.
    pub open spec fn decrease_rate(self) -> Playback {
        Playback {
            rate: if self.rate >= MIN_RATE + RATE_STEP {
                (self.rate - RATE_STEP) as nat
            } else {
                MIN_RATE as nat
            },
            ..self
        }
    }

    /// One evaluation of the schedule at `now`. Where an advance is owed, the
    /// reader moves to the next word and restarts the clock; from the last
    /// word it moves behind the end and pauses.
    pub open spec fn tick(self, now: nat) -> Playback {
        if !self.due(now) {
            self
        } else if self.index + 1 < self.len {
            Playback { index: (self.index + 1) as nat, last_advance: now, ..self }
        } else {
            Playback { index: self.len, paused: true, ..self }
        }
    }

    /// How long the loop may wait for input at `now`: the poll interval while
    /// paused, else what is left of the current word's time.
    pub open spec fn wait_budget(self, now: nat) -> nat {
        if self.paused {
            POLL_INTERVAL_MS as nat
        } else if self.elapsed(now) >= self.interval() {
            0
        } else {
            (self.interval() - self.elapsed(now)) as nat
        }
    }
}

/// Computes the time for which one word stays on screen at `rate` words per
/// minute.
pub fn interval(rate: u32) -> (ms: u64)
    requires
        rate > 0,
    ensures
        ms == interval_ms(rate as nat),
    no_unwind
{
    MINUTE_MS / (rate as u64)
}

/// The playback state. It is created once and changed only by the operations
/// below, each of which keeps the invariant of its model.
#[derive(Debug)]
pub struct PlaybackState {
    len: usize,
    index: usize,
    rate: u32,
    paused: bool,
    last_advance: u64,
}

impl View for PlaybackState {
    type V = Playback;

    closed spec fn view(&self) -> Playback {
        Playback {
            len: self.len as nat,
            index: self.index as nat,
            rate: self.rate as nat,
            paused: self.paused,
            last_advance: self.last_advance as nat,
        }
    }
}

impl PlaybackState {
    /// A state that exists satisfies the invariant of its model.
    #[verifier::type_invariant]
    pub open spec fn inv(&self) -> bool {
        self@.wf()
    }

    /// Starts paused on the first of `word_count` words, or returns `None`
    /// where there is no word to show.
    pub fn new(word_count: usize, rate: u32, now: u64) -> (state: Option<PlaybackState>)
        ensures
            state is None <==> word_count == 0,
            state matches Some(s) ==> s@ == Playback::initial(
                word_count as nat,
                rate as nat,
                now as nat,
            ) && s@.wf(),
        no_unwind
    {
        if word_count == 0 {
            return None;
        }
        let rate: u32 = if rate < MIN_RATE {
            MIN_RATE
        } else {
            rate
        };
        Some(PlaybackState { len: word_count, index: 0, rate, paused: true, last_advance: now })
    }

    /// Number of words in the text.
    pub fn len(&self) -> (len: usize)
        ensures
            len == self@.len,
            self@.wf(),
        no_unwind
    {
        proof {
            use_type_invariant(self);
        }
        self.len
    }

    /// Position of the current word; equal to `len()` once the text has ended.
    pub fn index(&self) -> (index: usize)
        ensures
            index == self@.index,
            self@.wf(),
        no_unwind
    {
        proof {
            use_type_invariant(self);
        }
        self.index
    }

    /// Words per minute.
    pub fn rate(&self) -> (rate: u32)
        ensures
            rate == self@.rate,
            self@.wf(),
        no_unwind
    {
        proof {
            use_type_invariant(self);
        }
        self.rate
    }

    /// Whether automatic advancement is suspended.
    pub fn is_paused(&self) -> (paused: bool)
        ensures
            paused == self@.paused,
            self@.wf(),
        no_unwind
    {
        proof {
            use_type_invariant(self);
        }
        self.paused
    }

    /// Instant at which the clock for the current word was started.
    pub fn last_advance(&self) -> (at: u64)
        ensures
            at == self@.last_advance,
            self@.wf(),
        no_unwind
    {
        proof {
            use_type_invariant(self);
        }
        self.last_advance
    }

    /// Whether the text has ended.
    pub fn is_finished(&self) -> (finished: bool)
        ensures
            finished == self@.finished(),
            self@.wf(),
        no_unwind
    {
        proof {
            use_type_invariant(self);
        }
        self.index == self.len
    }

    /// What the reader is doing.
    pub fn mode(&self) -> (mode: Mode)
        ensures
            mode == self@.mode(),
            self@.wf(),
        no_unwind
    {
        proof {
            use_type_invariant(self);
        }
        if self.index == self.len {
            Mode::Finished
        } else if self.paused {
            Mode::Paused
        } else {
            Mode::Playing
        }
    }

    /// Time for which the current rate keeps a word on screen, in
    /// milliseconds.
    pub fn interval(&self) -> (ms: u64)
        ensures
            ms == self@.interval(),
            self@.wf(),
        no_unwind
    {
        proof {
            use_type_invariant(self);
        }
        interval(self.rate)
    }

    /// Time since the clock of the current word was started, in milliseconds.
    pub fn elapsed(&self, now: u64) -> (ms: u64)
        ensures
            ms == self@.elapsed(now as nat),
            self@.wf(),
        no_unwind
    {
        proof {
            use_type_invariant(self);
        }
        if now >= self.last_advance {
            now - self.last_advance
        } else {
            0
        }
    }

    /// Pauses or resumes, and restarts the clock.
    pub fn toggle_pause(&mut self, now: u64)
        ensures
            final(self)@ == old(self)@.toggle_pause(now as nat),
            final(self)@.wf(),
        no_unwind
    {
        proof {
            use_type_invariant(&*self);
        }
        let paused: bool = self.index == self.len || !self.paused;
        self.paused = paused;
        self.last_advance = now;
    }

    /// Moves one word ahead, stopping at the last word, and restarts the
    /// clock.
    pub fn step_forward(&mut self, now: u64)
        ensures
            final(self)@ == old(self)@.step_forward(now as nat),
            final(self)@.wf(),
        no_unwind
    {
        proof {
            use_type_invariant(&*self);
        }
        let last: usize = self.len - 1;
        if self.index < last {
            self.index = self.index + 1;
        } else {
            self.index = last;
        }
        self.last_advance = now;
    }

    /// Moves one word back, stopping at the first word, and restarts the
    /// clock.
    pub fn step_backward(&mut self, now: u64)
        ensures
            final(self)@ == old(self)@.step_backward(now as nat),
            final(self)@.wf(),
        no_unwind
    {
        proof {
            use_type_invariant(&*self);
        }
        if self.index > 0 {
            self.index = self.index - 1;
        }
        self.last_advance = now;
    }

    /// Raises the rate by one step, stopping at the largest rate.
    pub fn increase_rate(&mut self)
        ensures
            final(self)@ == old(self)@.increase_rate(),
            final(self)@.wf(),
        no_unwind
    {
        proof {
            use_type_invariant(&*self);
        }
        if self.rate <= MAX_RATE - RATE_STEP {
            self.rate = self.rate + RATE_STEP;
        } else {
            self.rate = MAX_RATE;
        }
    }

    /// Lowers the rate by one step, stopping at the smallest rate.
    pub fn decrease_rate(&mut self)
        ensures
            final(self)@ == old(self)@.decrease_rate(),
            final(self)@.wf(),
        no_unwind
    {
        proof {
            use_type_invariant(&*self);
        }
        if self.rate >= MIN_RATE + RATE_STEP {
            self.rate = self.rate - RATE_STEP;
        } else {
            self.rate = MIN_RATE;
        }
    }

    /// Evaluates the schedule at `now` and advances where an advance is owed.
    pub fn tick(&mut self, now: u64)
        ensures
            final(self)@ == old(self)@.tick(now as nat),
            final(self)@.wf(),
        no_unwind
    {
        proof {
            use_type_invariant(&*self);
        }
        if self.paused {
            return;
        }
        if self.elapsed(now) < self.interval() {
            return;
        }
        if self.index < self.len - 1 {
            self.index = self.index + 1;
            self.last_advance = now;
        } else {
            self.paused = true;
            self.index = self.len;
        }
    }

    /// How long the loop may wait for input at `now`, in milliseconds.
    pub fn wait_budget(&self, now: u64) -> (ms: u64)
        ensures
            ms == self@.wait_budget(now as nat),
            self@.wf(),
        no_unwind
    {
        proof {
            use_type_invariant(self);
        }
        if self.paused {
            POLL_INTERVAL_MS
        } else {
            let interval: u64 = self.interval();
            let elapsed: u64 = self.elapsed(now);
            if elapsed >= interval {
                0
            } else {
                interval - elapsed
            }
        }
    }
}

impl Playback {
    /// The state after `n` commands that lower the rate.
    pub open spec fn decrease_rate_times(self, n: nat) -> Playback
        decreases n,
    {
        if n == 0 {
            self
        } else {
            self.decrease_rate_times((n - 1) as nat).decrease_rate()
        }
    }

    /// The state after `n` commands that raise the rate.
    pub open spec fn increase_rate_times(self, n: nat) -> Playback
        decreases n,
    {
        if n == 0 {
            self
        } else {
            self.increase_rate_times((n - 1) as nat).increase_rate()
        }
    }

    /// Every operation keeps the invariant: the position never leaves the
    /// text by more than one place, and a reader behind the end is paused.
    pub proof fn operations_keep_invariant(self, now: nat)
        requires
            self.wf(),
        ensures
            self.toggle_pause(now).wf(),
            self.step_forward(now).wf(),
            self.step_backward(now).wf(),
            self.increase_rate().wf(),
            self.decrease_rate().wf(),
            self.tick(now).wf(),
    {
    }

    /// The interval is a minute divided by the rate, rounded down: it is the
    /// largest number of milliseconds that `rate` words fit into one minute
    /// with, and it is exact where the rate divides a minute.
    pub proof fn interval_rounds_down(rate: nat)
        requires
            rate >= 1,
        ensures
            interval_ms(rate) == 60_000int / (rate as int),
            interval_ms(rate) * rate <= 60_000 < (interval_ms(rate) + 1) * rate,
            60_000int % (rate as int) == 0 ==> interval_ms(rate) * rate == 60_000,
            rate >= MIN_RATE ==> interval_ms(rate) <= 2_400,
    {
        let q = 60_000int / (rate as int);
        let r = 60_000int % (rate as int);
        assert(60_000 == q * rate + r && 0 <= r < rate) by (nonlinear_arith)
            requires
                rate >= 1,
                q == 60_000int / (rate as int),
                r == 60_000int % (rate as int),
        ;
        assert((q + 1) * rate == q * rate + rate) by (nonlinear_arith);
        if rate >= MIN_RATE {
            assert(q <= 2_400) by (nonlinear_arith)
                requires
                    rate >= 25,
                    q * rate <= 60_000,
            ;
        }
    }

    /// However often the rate is lowered, it stays at or above the minimum:
    /// each command takes one step off until the minimum is reached.
    pub proof fn rate_keeps_floor(self, n: nat)
        requires
            self.wf(),
        ensures
            self.decrease_rate_times(n).wf(),
            self.decrease_rate_times(n).rate >= MIN_RATE,
            self.decrease_rate_times(n).rate == if self.rate - n * RATE_STEP >= MIN_RATE {
                self.rate - n * RATE_STEP
            } else {
                MIN_RATE as int
            },
            self.decrease_rate_times(n) == (Playback {
                rate: self.decrease_rate_times(n).rate,
                ..self
            }),
        decreases n,
    {
        if n > 0 {
            self.rate_keeps_floor((n - 1) as nat);
        }
    }

    /// Raising the rate is not capped below what the counter can hold: each
    /// command adds one step until the largest rate is reached.
    pub proof fn rate_has_no_ceiling(self, n: nat)
        requires
            self.wf(),
        ensures
            self.increase_rate_times(n).wf(),
            self.increase_rate_times(n).rate == if self.rate + n * RATE_STEP <= MAX_RATE {
                self.rate + n * RATE_STEP
            } else {
                MAX_RATE as int
            },
            self.increase_rate_times(n) == (Playback {
                rate: self.increase_rate_times(n).rate,
                ..self
            }),
        decreases n,
    {
        if n > 0 {
            self.rate_has_no_ceiling((n - 1) as nat);
        }
    }

    /// A step forward on the last word and a step back on the first word
    /// leave the position, the rate and the pause flag as they are; only the
    /// clock restarts.
    pub proof fn steps_stop_at_the_ends(self, now: nat)
        requires
            self.wf(),
        ensures
            self.index == self.last_index() ==> self.step_forward(now) == (Playback {
                last_advance: now,
                ..self
            }),
            self.index == 0 ==> self.step_backward(now) == (Playback {
                last_advance: now,
                ..self
            }),
    {
    }

    /// A tick moves the position by at most one place and never past the end
    /// of the text; the tick that reaches the end pauses the reader in the
    /// same step. A tick on a paused reader, or before the interval has
    /// passed, changes nothing.
    pub proof fn tick_stops_at_the_end(self, now: nat)
        requires
            self.wf(),
        ensures
            self.index <= self.tick(now).index <= self.index + 1,
            self.tick(now).index <= self.len,
            self.tick(now).index == self.len ==> self.tick(now).paused,
            self.tick(now).index == self.len && self.index < self.len ==> self.tick(now).mode()
                == Mode::Finished && self.mode() == Mode::Playing,
            !self.due(now) ==> self.tick(now) == self,
            self.tick(now).len == self.len,
            self.tick(now).rate == self.rate,
    {
    }

    /// Two toggles in a row give back the pause flag that was there before
    /// them, and touch neither the position nor the rate.
    pub proof fn toggle_twice_restores(self, first: nat, second: nat)
        requires
            self.wf(),
        ensures
            self.toggle_pause(first).toggle_pause(second).paused == self.paused,
            self.toggle_pause(first).toggle_pause(second) == (Playback {
                last_advance: second,
                ..self
            }),
    {
    }

    /// Once the text has ended, only a step brings the reader back: it then
    /// stands paused on the last word. Toggling, ticking and changing the
    /// rate leave it where it is.
    pub proof fn finished_is_left_by_a_step_only(self, now: nat)
        requires
            self.wf(),
            self.finished(),
        ensures
            self.step_forward(now).mode() == Mode::Paused,
            self.step_forward(now).index == self.last_index(),
            self.step_backward(now).mode() == Mode::Paused,
            self.step_backward(now).index == self.last_index(),
            self.toggle_pause(now).mode() == Mode::Finished,
            self.tick(now) == self,
            self.increase_rate().mode() == Mode::Finished,
            self.decrease_rate().mode() == Mode::Finished,
    {
    }

    /// While playing, the wait budget ends exactly when the next advance is
    /// owed: no tick before its end advances, and the tick at its end does.
    /// While paused, the budget is the poll interval whatever the time.
    pub proof fn budget_ends_at_the_next_advance(self, now: nat, at: nat)
        requires
            self.wf(),
            self.last_advance <= now <= at,
        ensures
            self.paused ==> self.wait_budget(now) == POLL_INTERVAL_MS,
            !self.paused ==> self.wait_budget(now) <= self.interval(),
            !self.paused && at < now + self.wait_budget(now) ==> self.tick(at) == self,
            !self.paused && at >= now + self.wait_budget(now) ==> self.tick(at).index
                == self.index + 1,
    {
    }

    /// A reader that was resumed or moved at `now` does not advance before a
    /// full interval has passed, and advances at the first tick after it.
    pub proof fn resumed_reader_waits_an_interval(self, now: nat, later: nat)
        requires
            self.wf(),
            self.paused,
            !self.finished(),
            now <= later,
        ensures
            later - now < self.interval() ==> self.toggle_pause(now).tick(later)
                == self.toggle_pause(now),
            later - now >= self.interval() ==> self.toggle_pause(now).tick(later).index
                == self.index + 1,
    {
    }
}

} // verus!
