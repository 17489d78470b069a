//! A high-resolution stopwatch built on a monotonic hardware counter.
//!
//! The stopwatch is a small state machine over raw counter readings: it is
//! started from a counter frequency and an initial counter value, may be
//! paused and resumed (paused spans are excluded from the measurement), and
//! once stopped yields the elapsed time in ticks and in derived integer
//! units.
//!
//! The machine itself never talks to the operating system: every operation
//! takes the outcome of a counter query as an argument, so the whole
//! lifecycle is verified for every possible sequence of readings.  The thin
//! platform shell that performs the actual counter queries lives outside the
//! verified library.
//!
//! Failure semantics, uniformly: a failed counter query never changes the
//! stopwatch.  The operation reports which query failed and the platform
//! error code, and the caller decides whether to retry, stop or abandon
//! the measurement.  In particular, a pause or a stop whose read fails
//! does not take effect — a deliberate design decision, documented on
//! [`Stopwatch::pause`] and [`Stopwatch::resume`], in place of completing
//! the transition around a counter value that was never obtained.

use vstd::prelude::*;

verus! {

/// The three phases of a measurement.
#[derive(Clone, Copy, Debug, PartialEq, Eq, Structural)]
pub enum StopwatchState {
    /// The stopwatch is measuring.
    Running,
    /// The stopwatch is paused; time passing now will be excluded.
    Paused,
    /// The measurement is finished and frozen.
    Stopped,
}

/// The counter-source query that a failed operation was performing.
#[derive(Clone, Copy, Debug, PartialEq, Eq, Structural)]
pub enum Syscall {
    /// The query for the counter frequency (ticks per second).
    QueryFrequency,
    /// The query for the current counter value.
    QueryCounter,
}

/// The one error this library reports: a counter-source query failed.
///
/// It records which query failed and the platform error code that the
/// counter source reported for it.
#[derive(Clone, Copy, Debug, PartialEq, Eq, Structural)]
pub enum Error {
    /// A system call into the counter source failed.
    System { syscall: Syscall, code: u32 },
}

/// The mathematical image of a [`Stopwatch`]: the same fields, as
/// unbounded integers.  All contracts and laws are stated over this type.
pub struct StopwatchView {
    /// Counter ticks per second, fixed at construction.
    pub frequency: int,
    /// Counter value captured when the stopwatch was started.
    pub start_time: int,
    /// Cumulative ticks spent paused, accumulated on each resume.
    pub time_paused: int,
    /// Counter value captured by the most recent pause.
    pub pause_time: int,
    /// Counter value captured by stop (or frozen from the pause point).
    pub stop_time: int,
    /// Current phase of the measurement.
    pub state: StopwatchState,
}

/// A stopwatch over a monotonic counter.
///
/// Built by [`Stopwatch::start`]; mutated in place by `pause`, `resume` and
/// `stop`; read out by `elapsed_ticks` and the unit conversions once
/// stopped.
pub struct Stopwatch {
    frequency: i64,
    start_time: i64,
    time_paused: i64,
    pause_time: i64,
    stop_time: i64,
    intern_state: StopwatchState,
}

impl View for Stopwatch {
    type V = StopwatchView;

    closed spec fn view(&self) -> StopwatchView {
        StopwatchView {
            frequency: self.frequency as int,
            start_time: self.start_time as int,
            time_paused: self.time_paused as int,
            pause_time: self.pause_time as int,
            stop_time: self.stop_time as int,
            state: self.intern_state,
        }
    }
}

impl StopwatchView {
    /// Well-formedness: every field holds a machine-representable,
    /// non-negative value, the frequency is positive (every unit conversion
    /// divides by it), and the timestamps recorded so far account for at
    /// least the paused time — which is what makes a finished measurement
    /// non-negative.
    pub open spec fn inv(self) -> bool {
        &&& 1 <= self.frequency <= i64::MAX
        &&& 0 <= self.start_time <= i64::MAX
        &&& 0 <= self.time_paused <= i64::MAX
        &&& 0 <= self.pause_time <= i64::MAX
        &&& 0 <= self.stop_time <= i64::MAX
        &&& self.state is Paused ==> self.start_time + self.time_paused <= self.pause_time
        &&& self.state is Stopped ==> self.start_time + self.time_paused <= self.stop_time
    }

    /// The image of a freshly started stopwatch: running, with the given
    /// frequency and start reading, and nothing paused or stopped yet.
    pub open spec fn started(frequency: i64, counter: i64) -> StopwatchView {
        StopwatchView {
            frequency: frequency as int,
            start_time: counter as int,
            time_paused: 0,
            pause_time: 0,
            stop_time: 0,
            state: StopwatchState::Running,
        }
    }

    /// One pause transition: a running stopwatch records the reading as its
    /// pause point and becomes paused; in any other phase nothing changes.
    pub open spec fn paused_at(self, now: int) -> StopwatchView {
        if self.state is Running {
            StopwatchView { pause_time: now, state: StopwatchState::Paused, ..self }
        } else {
            self
        }
    }

    /// One resume transition: a paused stopwatch adds the span since its
    /// pause point to the paused total and runs again; in any other phase
    /// nothing changes.
    pub open spec fn resumed_at(self, now: int) -> StopwatchView {
        if self.state is Paused {
            StopwatchView {
                time_paused: self.time_paused + (now - self.pause_time),
                state: StopwatchState::Running,
                ..self
            }
        } else {
            self
        }
    }

    /// One stop transition: a running stopwatch records the reading as its
    /// stop point; a paused one freezes at its pause point (the reading is
    /// irrelevant); a stopped one is unchanged.
    pub open spec fn stopped_at(self, now: int) -> StopwatchView {
        match self.state {
            StopwatchState::Running => StopwatchView {
                stop_time: now,
                state: StopwatchState::Stopped,
                ..self
            },
            StopwatchState::Paused => StopwatchView {
                stop_time: self.pause_time,
                state: StopwatchState::Stopped,
                ..self
            },
            StopwatchState::Stopped => self,
        }
    }

    /// Ticks measured between start and stop, with all paused spans
    /// excluded.  Meaningful once the state is `Stopped`.
    pub open spec fn elapsed_ticks(self) -> int {
        self.stop_time - self.start_time - self.time_paused
    }

    /// Elapsed nanoseconds: the tick count scaled by the frequency, with a
    /// single truncating division.
    pub open spec fn nanoseconds(self) -> int {
        self.elapsed_ticks() * 1_000_000_000 / self.frequency
    }

    /// Elapsed microseconds: the already-truncated nanosecond value divided
    /// once more — deliberately not `ticks * 1_000_000 / frequency`.
    pub open spec fn microseconds(self) -> int {
        self.nanoseconds() / 1000
    }

    /// Elapsed milliseconds: one more truncating division of the
    /// microsecond value.
    pub open spec fn milliseconds(self) -> int {
        self.microseconds() / 1000
    }

    /// Elapsed whole seconds: one more truncating division of the
    /// millisecond value.
    pub open spec fn seconds(self) -> int {
        self.milliseconds() / 1000
    }
}

impl Stopwatch {
    /// Build a running stopwatch from the two counter-source readings that
    /// begin a measurement: the counter frequency, then the current counter
    /// value, queried in that order by the caller.
    ///
    /// A failed frequency query is reported first; a failed counter query
    /// is reported only when the frequency query succeeded, mirroring the
    /// order in which a caller performs them.
    pub fn start(frequency: Result<i64, u32>, counter: Result<i64, u32>) -> (r: Result<
        Stopwatch,
        Error,
    >)
        requires
            frequency matches Ok(f) ==> 1 <= f,
            counter matches Ok(t) ==> 0 <= t,
        ensures
            frequency matches Err(c) ==> r matches Err(e) && e == (Error::System {
                syscall: Syscall::QueryFrequency,
                code: c,
            }),
            frequency is Ok ==> (counter matches Err(c) ==> r matches Err(e) && e
                == (Error::System { syscall: Syscall::QueryCounter, code: c })),
            frequency matches Ok(f) ==> (counter matches Ok(t) ==> r matches Ok(sw) && sw@
                == StopwatchView::started(f, t) && sw@.inv()),
    {
        let f: i64 = match frequency {
            Ok(f) => f,
            Err(code) => {
                return Err(Error::System { syscall: Syscall::QueryFrequency, code });
            },
        };
        let t: i64 = match counter {
            Ok(t) => t,
            Err(code) => {
                return Err(Error::System { syscall: Syscall::QueryCounter, code });
            },
        };
        Ok(
            Stopwatch {
                frequency: f,
                start_time: t,
                time_paused: 0,
                pause_time: 0,
                stop_time: 0,
                intern_state: StopwatchState::Running,
            },
        )
    }

    /// Pause the measurement at the given counter reading.
    ///
    /// Only a running stopwatch consults the reading: it records the
    /// reading as its pause point and becomes paused, or reports the failed
    /// counter query.  In any other phase this is a no-op that always
    /// succeeds, and the caller need not query the counter at all.
    ///
    /// On a failed read the stopwatch is deliberately left unchanged and
    /// still running.  The alternative — letting the transition to paused
    /// take effect anyway, with a pause point that no reading vouches for
    /// — would poison everything later derived from that point: the span
    /// accumulated by the next resume, the freeze point of a stop while
    /// paused, and the non-negativity of the finished measurement.  The
    /// failure is surfaced instead, and the caller chooses whether to
    /// retry the pause or to stop.
    pub fn pause(&mut self, reading: Result<i64, u32>) -> (r: Result<(), Error>)
        requires
            old(self)@.inv(),
            old(self)@.state is Running ==> (reading matches Ok(t) ==> old(self)@.start_time + old(
                self,
            )@.time_paused <= t),
        ensures
            final(self)@.inv(),
            !(old(self)@.state is Running) ==> r is Ok && final(self)@ == old(self)@,
            old(self)@.state is Running ==> (reading matches Ok(t) ==> r is Ok && final(self)@
                == old(self)@.paused_at(t as int)),
            old(self)@.state is Running ==> (reading matches Err(c) ==> r matches Err(e) && e
                == (Error::System { syscall: Syscall::QueryCounter, code: c }) && final(self)@
                == old(self)@),
    {
        match self.intern_state {
            StopwatchState::Running => match reading {
                Ok(now) => {
                    self.pause_time = now;
                    self.intern_state = StopwatchState::Paused;
                    Ok(())
                },
                Err(code) => Err(Error::System { syscall: Syscall::QueryCounter, code }),
            },
            _ => Ok(()),
        }
    }

    /// Resume the measurement at the given counter reading.
    ///
    /// The reading is always consulted, even when the stopwatch is not
    /// paused — a deliberate asymmetry with [`Stopwatch::pause`], kept so
    /// that a no-op resume still surfaces a failing counter source.  A
    /// paused stopwatch adds the span since its pause point to the paused
    /// total and runs again; otherwise the state is unchanged.
    ///
    /// On a failed read the stopwatch — paused or not — is deliberately
    /// left exactly as it was, and the error reported.  Without a reading
    /// the just-ended paused span cannot be measured, and resuming anyway
    /// would silently drop that span from the paused total; a paused
    /// stopwatch therefore stays paused, and the caller may retry with a
    /// later reading.
    pub fn resume(&mut self, reading: Result<i64, u32>) -> (r: Result<(), Error>)
        requires
            old(self)@.inv(),
            old(self)@.state is Paused ==> (reading matches Ok(t) ==> old(self)@.pause_time <= t),
        ensures
            final(self)@.inv(),
            reading matches Ok(t) ==> r is Ok && final(self)@ == old(self)@.resumed_at(t as int),
            reading matches Err(c) ==> r matches Err(e) && e == (Error::System {
                syscall: Syscall::QueryCounter,
                code: c,
            }) && final(self)@ == old(self)@,
    {
        match reading {
            Ok(now) => {
                if let StopwatchState::Paused = self.intern_state {
                    let span: i64 = now - self.pause_time;
                    self.time_paused = self.time_paused + span;
                    self.intern_state = StopwatchState::Running;
                }
                Ok(())
            },
            Err(code) => Err(Error::System { syscall: Syscall::QueryCounter, code }),
        }
    }

    /// Stop the measurement.
    ///
    /// Only a running stopwatch consults the reading: it records the
    /// reading as its stop point, or reports the failed counter query.  A
    /// paused stopwatch freezes at its already-recorded pause point — no
    /// counter query is needed, so that path cannot fail.  A stopped
    /// stopwatch stays exactly as it is, so the measurement never changes
    /// once frozen.
    pub fn stop(&mut self, reading: Result<i64, u32>) -> (r: Result<(), Error>)
        requires
            old(self)@.inv(),
            old(self)@.state is Running ==> (reading matches Ok(t) ==> old(self)@.start_time + old(
                self,
            )@.time_paused <= t),
        ensures
            final(self)@.inv(),
            old(self)@.state is Running ==> (reading matches Ok(t) ==> r is Ok && final(self)@
                == old(self)@.stopped_at(t as int)),
            old(self)@.state is Running ==> (reading matches Err(c) ==> r matches Err(e) && e
                == (Error::System { syscall: Syscall::QueryCounter, code: c }) && final(self)@
                == old(self)@),
            old(self)@.state is Paused ==> r is Ok && final(self)@ == (StopwatchView {
                stop_time: old(self)@.pause_time,
                state: StopwatchState::Stopped,
                ..old(self)@
            }),
            old(self)@.state is Stopped ==> r is Ok && final(self)@ == old(self)@,
            r is Ok ==> final(self)@.state is Stopped,
    {
        match self.intern_state {
            StopwatchState::Running => match reading {
                Ok(now) => {
                    self.stop_time = now;
                    self.intern_state = StopwatchState::Stopped;
                    Ok(())
                },
                Err(code) => Err(Error::System { syscall: Syscall::QueryCounter, code }),
            },
            StopwatchState::Paused => {
                self.stop_time = self.pause_time;
                self.intern_state = StopwatchState::Stopped;
                Ok(())
            },
            StopwatchState::Stopped => Ok(()),
        }
    }

    /// Ticks measured between start and stop, with all paused spans
    /// excluded.
    ///
    /// Meaningful only once the stopwatch is stopped; that precondition is
    /// declared here rather than left to produce a stale value.
    pub fn elapsed_ticks(&self) -> (r: i64)
        requires
            self@.inv(),
            self@.state is Stopped,
        ensures
            r == self@.elapsed_ticks(),
            0 <= r,
    {
        self.stop_time - self.start_time - self.time_paused
    }

    /// Elapsed nanoseconds: `elapsed_ticks() * 1_000_000_000 / frequency`,
    /// truncated once.
    ///
    /// The scaled tick count must fit in an `i64`;
    /// [`Stopwatch::conversions_fit`] checks that bound at run time.
    pub fn elasped_nano(&self) -> (r: i64)
        requires
            self@.inv(),
            self@.state is Stopped,
            self@.elapsed_ticks() * 1_000_000_000 <= i64::MAX,
        ensures
            r == self@.nanoseconds(),
            0 <= r,
    {
        self.elapsed_ticks() * 1_000_000_000 / self.frequency
    }

    /// Elapsed microseconds: the nanosecond value truncated a second time —
    /// deliberately not `ticks * 1_000_000 / frequency`.
    pub fn elapsed_micro(&self) -> (r: i64)
        requires
            self@.inv(),
            self@.state is Stopped,
            self@.elapsed_ticks() * 1_000_000_000 <= i64::MAX,
        ensures
            r == self@.microseconds(),
            0 <= r,
    {
        self.elasped_nano() / 1000
    }

    /// Elapsed milliseconds: the microsecond value truncated once more.
    pub fn elapsed_milli(&self) -> (r: i64)
        requires
            self@.inv(),
            self@.state is Stopped,
            self@.elapsed_ticks() * 1_000_000_000 <= i64::MAX,
        ensures
            r == self@.milliseconds(),
            0 <= r,
    {
        self.elapsed_micro() / 1000
    }

    /// Elapsed whole seconds: the millisecond value truncated once more.
    pub fn elapsed_seconds(&self) -> (r: i64)
        requires
            self@.inv(),
            self@.state is Stopped,
            self@.elapsed_ticks() * 1_000_000_000 <= i64::MAX,
        ensures
            r == self@.seconds(),
            0 <= r,
    {
        self.elapsed_milli() / 1000
    }

    /// The current phase of the measurement.
    pub fn state(&self) -> (s: StopwatchState)
        ensures
            s == self@.state,
    {
        self.intern_state
    }

    /// The counter frequency this stopwatch was started with, in ticks per
    /// second.
    pub fn frequency(&self) -> (f: i64)
        ensures
            f == self@.frequency,
    {
        self.frequency
    }

    /// True when the given counter reading is in order: no earlier than any
    /// instant this stopwatch has already accounted for.  A monotonic
    /// counter always yields such readings; a caller that cannot vouch for
    /// its counter source checks here before handing a reading to `pause`,
    /// `resume` or `stop`.
    pub fn accepts_reading(&self, reading: i64) -> (b: bool)
        requires
            self@.inv(),
        ensures
            b == (self@.start_time + self@.time_paused <= reading && self@.pause_time <= reading),
    {
        let accounted: i128 = (self.start_time as i128) + (self.time_paused as i128);
        accounted <= (reading as i128) && self.pause_time <= reading
    }

    /// True when the scaled tick count of a stopped measurement fits in an
    /// `i64`, which is what the unit conversions require.
    pub fn conversions_fit(&self) -> (b: bool)
        requires
            self@.inv(),
            self@.state is Stopped,
        ensures
            b == (self@.elapsed_ticks() * 1_000_000_000 <= i64::MAX),
    {
        let ticks: i64 = self.elapsed_ticks();
        ticks <= i64::MAX / 1_000_000_000
    }
}

/// Law: a measurement with no intervening pause is exactly the difference
/// between the counter value at stop and at start, and is never negative
/// while the counter moves forward.
pub proof fn lemma_plain_measurement(frequency: i64, start_tick: i64, stop_tick: i64)
    requires
        1 <= frequency,
        0 <= start_tick <= stop_tick,
    ensures
        ({
            let v = StopwatchView::started(frequency, start_tick).stopped_at(stop_tick as int);
            &&& v.state is Stopped
            &&& v.elapsed_ticks() == stop_tick - start_tick
            &&& 0 <= v.elapsed_ticks()
        }),
{
}

/// Law: stopping is idempotent — a second stop, at any reading, leaves a
/// stopped stopwatch, and in particular its elapsed ticks, exactly as it
/// was.
pub proof fn lemma_stop_idempotent(v: StopwatchView, first: int, second: int)
    ensures
        v.stopped_at(first).stopped_at(second) == v.stopped_at(first),
        v.stopped_at(first).stopped_at(second).elapsed_ticks() == v.stopped_at(
            first,
        ).elapsed_ticks(),
{
}

/// Law: a paused span is excluded from the measurement — start, pause,
/// resume, stop at successive counter values leaves exactly the start-to-stop
/// span minus the paused span, and never a negative count.
pub proof fn lemma_pause_excluded(
    frequency: i64,
    start_tick: i64,
    pause_tick: int,
    resume_tick: int,
    stop_tick: int,
)
    requires
        1 <= frequency,
        0 <= start_tick <= pause_tick <= resume_tick <= stop_tick,
    ensures
        ({
            let v = StopwatchView::started(frequency, start_tick).paused_at(pause_tick).resumed_at(
                resume_tick,
            ).stopped_at(stop_tick);
            &&& v.state is Stopped
            &&& v.elapsed_ticks() == stop_tick - start_tick - (resume_tick - pause_tick)
            &&& 0 <= v.elapsed_ticks()
        }),
{
}

/// Law: stopping while paused freezes the measurement at the pause point,
/// and no later event — pause, resume or stop, at any later reading —
/// changes it.
pub proof fn lemma_stop_while_paused_freezes(
    v: StopwatchView,
    stop_reading: int,
    later_pause: int,
    later_resume: int,
    later_stop: int,
)
    requires
        v.state is Paused,
    ensures
        ({
            let w = v.stopped_at(stop_reading);
            &&& w.state is Stopped
            &&& w.elapsed_ticks() == v.pause_time - v.start_time - v.time_paused
            &&& w.paused_at(later_pause) == w
            &&& w.resumed_at(later_resume) == w
            &&& w.stopped_at(later_stop) == w
        }),
{
}

/// Law: a pause and a resume at the same counter value accumulate no paused
/// time, so the finished measurement equals a plain start-to-stop
/// measurement with no pause at all.
pub proof fn lemma_instant_pause_resume(v: StopwatchView, pause_tick: int, stop_tick: int)
    requires
        v.state is Running,
    ensures
        ({
            let w = v.paused_at(pause_tick).resumed_at(pause_tick);
            &&& w.state is Running
            &&& w.time_paused == v.time_paused
            &&& w.stopped_at(stop_tick).elapsed_ticks() == v.stopped_at(stop_tick).elapsed_ticks()
        }),
{
}

/// Law: the unit conversions truncate step by step — nanoseconds are scaled
/// from ticks with one truncating division, and each coarser unit is one
/// more truncating division of the previous unit, never a fresh scaling of
/// the tick count.
pub proof fn lemma_conversion_chain(v: StopwatchView)
    ensures
        v.nanoseconds() == v.elapsed_ticks() * 1_000_000_000 / v.frequency,
        v.microseconds() == v.nanoseconds() / 1000,
        v.milliseconds() == v.microseconds() / 1000,
        v.seconds() == v.milliseconds() / 1000,
{
}

} // verus!
