//! The countdown engine.
//!
//! A `Countdown` drives a single phase from start to elapsed-timeout. The
//! caller measures wall-clock elapsed seconds and hands each reading to
//! [`Countdown::step`]; the engine answers with a progress event or, once the
//! reading reaches the phase duration, with the single completion event. The
//! engine anchors every decision to the readings it is given (never to tick
//! counts), emits its first progress event at position zero immediately, keeps
//! the emitted elapsed values monotone even if readings jitter backwards, and
//! completes a zero-duration phase on the first measurement.

use vstd::prelude::*;
use crate::phase::Phase;

verus! {

/// The lifecycle of one countdown: it can only move forward.
#[derive(Clone, Copy, Debug, PartialEq, Eq, Structural)]
pub enum EngineState {
    Pending,
    Running,
    Completed,
}

/// A snapshot emitted on each tick of a phase countdown.
#[derive(Clone, Copy, Debug, PartialEq, Eq, Structural)]
pub struct PhaseProgress {
    pub elapsed_seconds: u64,
    pub remaining_seconds: u64,
    pub total_seconds: u64,
}

/// One engine answer: either an intermediate progress snapshot, or the final
/// snapshot that accompanies the unique completion signal of the phase.
#[derive(Clone, Copy, Debug, PartialEq, Eq, Structural)]
pub enum Tick {
    Progress(PhaseProgress),
    Complete(PhaseProgress),
}

impl Tick {
    /// Whether this tick is the completion signal.
    pub open spec fn is_complete(self) -> bool {
        matches!(self, Tick::Complete(_))
    }

    /// The snapshot carried by the tick, whichever variant it is.
    pub open spec fn snapshot(self) -> PhaseProgress {
        match self {
            Tick::Progress(p) => p,
            Tick::Complete(p) => p,
        }
    }
}

/// The largest of the first `n` wall-clock readings, or zero when there are
/// none: the elapsed position a countdown reports after consuming them.
pub open spec fn running_max(readings: Seq<u64>, n: int) -> u64
    decreases n,
{
    if n <= 0 {
        0
    } else if readings[n - 1] > running_max(readings, n - 1) {
        readings[n - 1]
    } else {
        running_max(readings, n - 1)
    }
}

/// The countdown state for a single phase.
pub struct Countdown {
    duration: u64,
    state: EngineState,
    last_elapsed: u64,
}

impl Countdown {
    /// The phase duration, in seconds, that this engine counts down.
    pub closed spec fn duration_spec(self) -> u64 {
        self.duration
    }

    /// The engine's position in its lifecycle.
    pub closed spec fn state_spec(self) -> EngineState {
        self.state
    }

    /// The elapsed value of the last emitted progress event.
    pub closed spec fn last_elapsed_spec(self) -> u64 {
        self.last_elapsed
    }

    /// The engine's internal consistency: emitted elapsed values never pass
    /// the duration, nothing was emitted before the first step, and a running
    /// engine still has time left.
    pub open spec fn wf(self) -> bool {
        &&& self.last_elapsed_spec() <= self.duration_spec()
        &&& (self.state_spec() == EngineState::Pending ==> self.last_elapsed_spec() == 0)
        &&& (self.state_spec() == EngineState::Running ==> self.last_elapsed_spec()
            < self.duration_spec())
    }

    /// A fresh engine for a phase of `duration` seconds, not yet started.
    pub fn new(duration: u64) -> (c: Countdown)
        ensures
            c.wf(),
            c.duration_spec() == duration,
            c.state_spec() == EngineState::Pending,
            c.last_elapsed_spec() == 0,
    {
        Countdown { duration, state: EngineState::Pending, last_elapsed: 0 }
    }

    /// A fresh engine for the given phase.
    pub fn for_phase(phase: &Phase) -> (c: Countdown)
        ensures
            c.wf(),
            c.duration_spec() == phase.duration_seconds,
            c.state_spec() == EngineState::Pending,
            c.last_elapsed_spec() == 0,
    {
        Countdown::new(phase.duration_seconds)
    }

    /// Whether the phase has completed; a completed engine takes no more steps.
    pub fn is_completed(&self) -> (r: bool)
        ensures
            r == (self.state_spec() == EngineState::Completed),
    {
        match self.state {
            EngineState::Completed => true,
            _ => false,
        }
    }

    /// Feed one wall-clock reading (elapsed seconds since phase start) to the
    /// engine.
    ///
    /// The very first step emits the position-zero progress event regardless
    /// of the reading, so a renderer shows the phase label immediately —
    /// unless the duration is zero, in which case the phase completes at once.
    /// After that, a reading that has reached the duration yields the unique
    /// completion tick, whose elapsed value is exactly the duration; a smaller
    /// reading yields a progress tick whose elapsed value never exceeds the
    /// duration and never decreases from one tick to the next.
    pub fn step(&mut self, measured_elapsed: u64) -> (t: Tick)
        requires
            old(self).wf(),
            old(self).state_spec() != EngineState::Completed,
        ensures
            final(self).wf(),
            final(self).duration_spec() == old(self).duration_spec(),
            t.snapshot().total_seconds == old(self).duration_spec(),
            t.snapshot().remaining_seconds == old(self).duration_spec()
                - t.snapshot().elapsed_seconds,
            t.snapshot().elapsed_seconds >= old(self).last_elapsed_spec(),
            t.is_complete() ==> {
                &&& t.snapshot().elapsed_seconds == old(self).duration_spec()
                &&& final(self).state_spec() == EngineState::Completed
            },
            !t.is_complete() ==> {
                &&& t.snapshot().elapsed_seconds < old(self).duration_spec()
                &&& final(self).state_spec() == EngineState::Running
                &&& final(self).last_elapsed_spec() == t.snapshot().elapsed_seconds
            },
            old(self).state_spec() == EngineState::Pending ==> t.snapshot().elapsed_seconds == 0,
            old(self).state_spec() == EngineState::Pending ==> (t.is_complete() <==> old(
                self,
            ).duration_spec() == 0),
            old(self).state_spec() == EngineState::Running ==> (t.is_complete()
                <==> measured_elapsed >= old(self).duration_spec()),
            old(self).state_spec() == EngineState::Running && !t.is_complete()
                ==> t.snapshot().elapsed_seconds == (if measured_elapsed > old(
                self,
            ).last_elapsed_spec() {
                measured_elapsed
            } else {
                old(self).last_elapsed_spec()
            }),
    {
        match self.state {
            EngineState::Pending => {
                if self.duration == 0 {
                    self.state = EngineState::Completed;
                    Tick::Complete(
                        PhaseProgress { elapsed_seconds: 0, remaining_seconds: 0, total_seconds: 0 },
                    )
                } else {
                    self.state = EngineState::Running;
                    self.last_elapsed = 0;
                    Tick::Progress(
                        PhaseProgress {
                            elapsed_seconds: 0,
                            remaining_seconds: self.duration,
                            total_seconds: self.duration,
                        },
                    )
                }
            },
            EngineState::Running => {
                if measured_elapsed >= self.duration {
                    self.state = EngineState::Completed;
                    Tick::Complete(
                        PhaseProgress {
                            elapsed_seconds: self.duration,
                            remaining_seconds: 0,
                            total_seconds: self.duration,
                        },
                    )
                } else {
                    let elapsed = if measured_elapsed > self.last_elapsed {
                        measured_elapsed
                    } else {
                        self.last_elapsed
                    };
                    self.last_elapsed = elapsed;
                    Tick::Progress(
                        PhaseProgress {
                            elapsed_seconds: elapsed,
                            remaining_seconds: self.duration - elapsed,
                            total_seconds: self.duration,
                        },
                    )
                }
            },
            EngineState::Completed => {
                proof {
                    assert(false);
                }
                Tick::Complete(
                    PhaseProgress { elapsed_seconds: 0, remaining_seconds: 0, total_seconds: 0 },
                )
            },
        }
    }

    /// Run one whole phase against a recorded list of wall-clock readings,
    /// collecting every emitted tick.
    ///
    /// The first tick is emitted before any reading is consumed (the
    /// position-zero event, or immediate completion of a zero-duration
    /// phase); after that the readings are consumed in order until one
    /// reaches the duration or the list runs out. The contract pins every
    /// tick: elapsed values are the running maximum of the readings consumed
    /// so far, monotone and ending exactly at the duration, and the
    /// completion signal is unique and last — it comes if and only if the
    /// duration is zero or some reading reaches the duration.
    pub fn run_phase(duration: u64, readings: &Vec<u64>) -> (events: Vec<Tick>)
        ensures
            events@.len() >= 1,
            // every event's snapshot is consistent with the phase duration
            forall|i: int|
                0 <= i < events@.len() ==> {
                    &&& (#[trigger] events@[i]).snapshot().total_seconds == duration
                    &&& events@[i].snapshot().remaining_seconds == duration
                        - events@[i].snapshot().elapsed_seconds
                    &&& events@[i].snapshot().elapsed_seconds <= duration
                },
            // elapsed values are monotone over the whole run
            forall|i: int, j: int|
                0 <= i <= j < events@.len() ==> (#[trigger] events@[i]).snapshot().elapsed_seconds
                    <= (#[trigger] events@[j]).snapshot().elapsed_seconds,
            // every event but the last is a progress event, strictly short of the duration
            forall|i: int|
                0 <= i < events@.len() - 1 ==> !(#[trigger] events@[i]).is_complete()
                    && events@[i].snapshot().elapsed_seconds < duration,
            // the completion signal comes iff the phase can complete on these readings
            events@.last().is_complete() <==> (duration == 0 || exists|i: int|
                0 <= i < readings@.len() && readings@[i] >= duration),
            // and it ends exactly at the duration
            events@.last().is_complete() ==> events@.last().snapshot().elapsed_seconds == duration,
            // the first event stands at position zero
            events@[0] == (if duration == 0 {
                Tick::Complete(PhaseProgress { elapsed_seconds: 0, remaining_seconds: 0, total_seconds: 0 })
            } else {
                Tick::Progress(
                    PhaseProgress {
                        elapsed_seconds: 0,
                        remaining_seconds: duration,
                        total_seconds: duration,
                    },
                )
            }),
            // a zero-duration phase completes immediately: no progress events
            duration == 0 ==> events@.len() == 1,
            // without a completion, every reading was consumed and fell short
            !events@.last().is_complete() ==> events@.len() == readings@.len() + 1,
            // with one, the readings up to it fell short and it reached the duration
            events@.last().is_complete() && duration > 0 ==> {
                let m = events@.len() - 2;
                &&& 0 <= m < readings@.len()
                &&& readings@[m] >= duration
                &&& forall|i: int| 0 <= i < m ==> readings@[i] < duration
            },
            // each progress event after the first carries the running maximum
            // of the readings consumed so far
            forall|i: int|
                1 <= i < events@.len() && !(#[trigger] events@[i]).is_complete() ==> events@[i]
                    == Tick::Progress(
                    PhaseProgress {
                        elapsed_seconds: running_max(readings@, i),
                        remaining_seconds: (duration - running_max(readings@, i)) as u64,
                        total_seconds: duration,
                    },
                ),
    {
        let mut engine = Countdown::new(duration);
        let mut events: Vec<Tick> = Vec::new();
        let first = engine.step(0);
        events.push(first);
        if engine.is_completed() {
            return events;
        }
        let mut k: usize = 0;
        while k < readings.len()
            invariant
                engine.wf(),
                engine.duration_spec() == duration,
                engine.state_spec() == EngineState::Running,
                duration > 0,
                k <= readings@.len(),
                events@.len() == k + 1,
                events@[0] == Tick::Progress(
                    PhaseProgress {
                        elapsed_seconds: 0,
                        remaining_seconds: duration,
                        total_seconds: duration,
                    },
                ),
                engine.last_elapsed_spec() == events@.last().snapshot().elapsed_seconds,
                engine.last_elapsed_spec() == running_max(readings@, k as int),
                forall|i: int|
                    1 <= i < events@.len() ==> (#[trigger] events@[i]) == Tick::Progress(
                        PhaseProgress {
                            elapsed_seconds: running_max(readings@, i),
                            remaining_seconds: (duration - running_max(readings@, i)) as u64,
                            total_seconds: duration,
                        },
                    ),
                forall|i: int|
                    0 <= i < events@.len() ==> {
                        &&& (#[trigger] events@[i]).snapshot().total_seconds == duration
                        &&& events@[i].snapshot().remaining_seconds == duration
                            - events@[i].snapshot().elapsed_seconds
                        &&& events@[i].snapshot().elapsed_seconds < duration
                        &&& !events@[i].is_complete()
                    },
                forall|i: int, j: int|
                    0 <= i <= j < events@.len() ==> (#[trigger] events@[i]).snapshot().elapsed_seconds
                        <= (#[trigger] events@[j]).snapshot().elapsed_seconds,
                forall|i: int| 0 <= i < k ==> readings@[i] < duration,
            decreases readings@.len() - k,
        {
            let tick = engine.step(readings[k]);
            events.push(tick);
            if engine.is_completed() {
                assert(readings@[k as int] >= duration);
                return events;
            }
            k = k + 1;
        }
        events
    }
}

} // verus!
