//! The session scheduler.
//!
//! A `Scheduler` walks a session's phases in order, one at a time: a phase
//! must fully complete — including its notification — before the next phase
//! is handed out. The trace of a completed run is fully determined by the
//! session: for every phase, in session order, a phase-transition event, a
//! completion event and a notification attempt, and after the last phase the
//! single session-complete event. [`session_trace`] computes that trace with
//! its order pinned down, and the caller replays it against the wall clock.

use vstd::prelude::*;
use crate::countdown::Countdown;
use crate::countdown::Tick;
use crate::phase::Phase;
use crate::phase::PhaseKind;
use crate::phase::Session;

verus! {

/// An event the scheduler emits to the presentation sink.
#[derive(Clone, Copy, Debug, PartialEq, Eq, Structural)]
pub enum SessionEvent {
    PhaseStarted(PhaseKind),
    PhaseCompleted(PhaseKind),
    NotificationAttempted,
    SessionCompleted,
}

/// Steps through a session's phases in order.
pub struct Scheduler {
    session: Session,
    next_index: usize,
}

impl Scheduler {
    /// The phases this scheduler walks.
    pub closed spec fn phases(self) -> Seq<Phase> {
        self.session.phases@
    }

    /// How many phases have already been handed out.
    pub closed spec fn position(self) -> int {
        self.next_index as int
    }

    /// The position never passes the end of the session.
    pub open spec fn wf(self) -> bool {
        0 <= self.position() <= self.phases().len()
    }

    /// A scheduler at the start of the given session.
    pub fn new(session: Session) -> (s: Scheduler)
        ensures
            s.wf(),
            s.phases() == session.phases@,
            s.position() == 0,
    {
        Scheduler { session, next_index: 0 }
    }

    /// Hand out the next phase and advance past it; nothing once every phase
    /// has been handed out.
    pub fn next_phase(&mut self) -> (p: Option<Phase>)
        requires
            old(self).wf(),
        ensures
            final(self).wf(),
            final(self).phases() == old(self).phases(),
            old(self).position() < old(self).phases().len() ==> p == Some(
                old(self).phases()[old(self).position()],
            ) && final(self).position() == old(self).position() + 1,
            old(self).position() >= old(self).phases().len() ==> p is None && final(self).position()
                == old(self).position(),
    {
        if self.next_index < self.session.phases.len() {
            let p = self.session.phases[self.next_index];
            self.next_index = self.next_index + 1;
            Some(p)
        } else {
            None
        }
    }

    /// Whether every phase has been handed out.
    pub fn is_finished(&self) -> (r: bool)
        ensures
            r == (self.position() >= self.phases().len()),
    {
        self.next_index >= self.session.phases.len()
    }
}

/// The event at position `i` of a completed session run: phase `k`
/// contributes the events at positions `3 k` (its start), `3 k + 1` (its
/// completion) and `3 k + 2` (its notification attempt), and position
/// `3 n` holds the session-complete event.
pub open spec fn trace_event_at(phases: Seq<Phase>, i: int) -> SessionEvent {
    if i == 3 * phases.len() {
        SessionEvent::SessionCompleted
    } else if i % 3 == 0 {
        SessionEvent::PhaseStarted(phases[i / 3].kind)
    } else if i % 3 == 1 {
        SessionEvent::PhaseCompleted(phases[i / 3].kind)
    } else {
        SessionEvent::NotificationAttempted
    }
}

/// The full ordered event trace of a session run in which every phase runs to
/// completion: for each phase, in session order, its transition event, its
/// completion event and its notification attempt; after the final phase, the
/// single session-complete event. Phase-transition events are totally ordered
/// by session order, and there is exactly one completion and one notification
/// attempt per phase.
pub fn session_trace(session: &Session) -> (events: Vec<SessionEvent>)
    requires
        3 * session.phases@.len() + 1 <= usize::MAX,
    ensures
        events@.len() == 3 * session.phases@.len() + 1,
        forall|i: int|
            0 <= i < events@.len() ==> events@[i] == trace_event_at(session.phases@, i),
{
    let n = session.phases.len();
    let mut events: Vec<SessionEvent> = Vec::new();
    let mut k: usize = 0;
    while k < n
        invariant
            k <= n,
            n == session.phases@.len(),
            3 * n + 1 <= usize::MAX,
            events@.len() == 3 * k,
            forall|i: int|
                0 <= i < events@.len() ==> events@[i] == trace_event_at(session.phases@, i),
        decreases n - k,
    {
        let ph = session.phases[k];
        events.push(SessionEvent::PhaseStarted(ph.kind));
        events.push(SessionEvent::PhaseCompleted(ph.kind));
        events.push(SessionEvent::NotificationAttempted);
        proof {
            let ki = k as int;
            assert((3 * ki) % 3 == 0 && (3 * ki) / 3 == ki);
            assert((3 * ki + 1) % 3 == 1 && (3 * ki + 1) / 3 == ki);
            assert((3 * ki + 2) % 3 == 2 && (3 * ki + 2) / 3 == ki);
        }
        k = k + 1;
    }
    events.push(SessionEvent::SessionCompleted);
    events
}

/// Whether a phase runs to completion on the given wall-clock readings: at
/// once when its duration is zero, otherwise as soon as a reading reaches the
/// duration.
pub open spec fn phase_completes(phase: Phase, readings: Seq<u64>) -> bool {
    phase.duration_seconds == 0 || exists|i: int|
        0 <= i < readings.len() && readings[i] >= phase.duration_seconds
}

/// The outcome of running a session against recorded readings.
pub struct SessionRun {
    pub events: Vec<SessionEvent>,
    pub phases_completed: usize,
}

/// Run a whole session through the countdown engine, one recorded list of
/// wall-clock readings per phase, emitting the scheduler's events in order:
/// each phase's transition event, then — once the engine signals its unique
/// completion — its completion event and its notification attempt, before the
/// next phase starts. After the last phase the single session-complete event
/// closes the trace. A phase whose readings never reach its duration stops
/// the run right after its transition event.
pub fn run_session(session: &Session, readings: &Vec<Vec<u64>>) -> (r: SessionRun)
    requires
        readings@.len() == session.phases@.len(),
        3 * session.phases@.len() + 1 <= usize::MAX,
    ensures
        r.phases_completed <= session.phases@.len(),
        forall|k: int|
            0 <= k < r.phases_completed ==> phase_completes(
                #[trigger] session.phases@[k],
                readings@[k]@,
            ),
        r.phases_completed < session.phases@.len() ==> !phase_completes(
            session.phases@[r.phases_completed as int],
            readings@[r.phases_completed as int]@,
        ),
        r.phases_completed == session.phases@.len() ==> r.events@.len() == 3
            * session.phases@.len() + 1 && (forall|i: int|
            0 <= i < r.events@.len() ==> r.events@[i] == trace_event_at(session.phases@, i)),
        r.phases_completed < session.phases@.len() ==> r.events@.len() == 3 * r.phases_completed
            + 1 && (forall|i: int|
            0 <= i < 3 * r.phases_completed ==> r.events@[i] == trace_event_at(
                session.phases@, i,
            )) && r.events@.last() == SessionEvent::PhaseStarted(
            session.phases@[r.phases_completed as int].kind,
        ),
{
    let n = session.phases.len();
    let mut events: Vec<SessionEvent> = Vec::new();
    let mut k: usize = 0;
    while k < n
        invariant
            k <= n,
            n == session.phases@.len(),
            readings@.len() == n,
            3 * n + 1 <= usize::MAX,
            events@.len() == 3 * k,
            forall|i: int|
                0 <= i < events@.len() ==> events@[i] == trace_event_at(session.phases@, i),
            forall|j: int|
                0 <= j < k ==> phase_completes(#[trigger] session.phases@[j], readings@[j]@),
        decreases n - k,
    {
        let ph = session.phases[k];
        events.push(SessionEvent::PhaseStarted(ph.kind));
        proof {
            let ki = k as int;
            assert((3 * ki) % 3 == 0 && (3 * ki) / 3 == ki);
        }
        let ticks = Countdown::run_phase(ph.duration_seconds, &readings[k]);
        let last_tick = ticks[ticks.len() - 1];
        let completed = match last_tick {
            Tick::Complete(_) => true,
            Tick::Progress(_) => false,
        };
        if !completed {
            return SessionRun { events, phases_completed: k };
        }
        events.push(SessionEvent::PhaseCompleted(ph.kind));
        events.push(SessionEvent::NotificationAttempted);
        proof {
            let ki = k as int;
            assert((3 * ki + 1) % 3 == 1 && (3 * ki + 1) / 3 == ki);
            assert((3 * ki + 2) % 3 == 2 && (3 * ki + 2) / 3 == ki);
        }
        k = k + 1;
    }
    events.push(SessionEvent::SessionCompleted);
    SessionRun { events, phases_completed: n }
}

} // verus!
