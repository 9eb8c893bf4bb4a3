//! Phases and sessions.
//!
//! A `Phase` is one timed segment — work, short break, long break, or an
//! ad-hoc timer — with its duration in seconds. A `Session` is the ordered
//! sequence of phases for one pomodoro run: for `cycles` = N, the sequence is
//! `[Work, ShortBreak]` repeated N-1 times, then `[Work, LongBreak]`, so the
//! session holds exactly N work phases, N-1 short breaks, and one long break,
//! always last.

use vstd::prelude::*;

verus! {

/// The kind of a timed segment.
#[derive(Clone, Copy, Debug, PartialEq, Eq, Structural)]
pub enum PhaseKind {
    Work,
    ShortBreak,
    LongBreak,
    AdHocTimer,
}

/// One countdown unit: a kind and a duration in whole seconds.
///
/// Immutable once built; the label shown for the phase is derived from the
/// kind by [`Phase::label`].
#[derive(Clone, Copy, Debug, PartialEq, Eq, Structural)]
pub struct Phase {
    pub kind: PhaseKind,
    pub duration_seconds: u64,
}

/// The display label that belongs to a phase kind.
pub open spec fn label_spec(kind: PhaseKind) -> Seq<char> {
    match kind {
        PhaseKind::Work => "Work"@,
        PhaseKind::ShortBreak => "Short Break"@,
        PhaseKind::LongBreak => "Long Break"@,
        PhaseKind::AdHocTimer => "Timer"@,
    }
}

impl Phase {
    /// Build a phase of the given kind lasting `minutes` whole minutes.
    pub fn from_minutes(kind: PhaseKind, minutes: u32) -> (p: Phase)
        ensures
            p.kind == kind,
            p.duration_seconds == minutes * 60,
    {
        Phase { kind, duration_seconds: (minutes as u64) * 60 }
    }

    /// The display string for this phase.
    pub fn label(&self) -> (r: &'static str)
        ensures
            r@ == label_spec(self.kind),
    {
        match self.kind {
            PhaseKind::Work => "Work",
            PhaseKind::ShortBreak => "Short Break",
            PhaseKind::LongBreak => "Long Break",
            PhaseKind::AdHocTimer => "Timer",
        }
    }
}

/// The phase that stands at position `i` of a session built from the four
/// parameters: work and short-break pairs for every cycle but the last,
/// then the last work phase, then the long break.
pub open spec fn session_phase_at(
    work_minutes: u32,
    short_break_minutes: u32,
    long_break_minutes: u32,
    cycles: u32,
    i: int,
) -> Phase {
    if i == 2 * cycles - 1 {
        Phase { kind: PhaseKind::LongBreak, duration_seconds: (long_break_minutes * 60) as u64 }
    } else if i % 2 == 0 {
        Phase { kind: PhaseKind::Work, duration_seconds: (work_minutes * 60) as u64 }
    } else {
        Phase { kind: PhaseKind::ShortBreak, duration_seconds: (short_break_minutes * 60) as u64 }
    }
}

/// A configuration the session builder rejects before any phase starts.
#[derive(Clone, Copy, Debug, PartialEq, Eq, Structural)]
pub enum ConfigError {
    ZeroCycles,
}

impl ConfigError {
    /// A short description of the rejected configuration.
    pub fn message(&self) -> (r: &'static str)
        ensures
            r@ == "a session needs at least one cycle"@,
    {
        "a session needs at least one cycle"
    }
}

/// The full ordered sequence of phases for one pomodoro run.
pub struct Session {
    pub phases: Vec<Phase>,
}

impl Session {
    /// Whether this session is the one built from the four parameters.
    pub open spec fn is_built_from(
        &self,
        work_minutes: u32,
        short_break_minutes: u32,
        long_break_minutes: u32,
        cycles: u32,
    ) -> bool {
        &&& self.phases@.len() == 2 * cycles
        &&& forall|i: int| 0 <= i < self.phases@.len()
            ==> self.phases@[i] == session_phase_at(
                work_minutes, short_break_minutes, long_break_minutes, cycles, i,
            )
    }

    /// Build the session for `cycles` pomodoro cycles: work phases alternate
    /// with short breaks, and the last work phase is followed by the single
    /// long break.
    pub fn build(
        work_minutes: u32,
        short_break_minutes: u32,
        long_break_minutes: u32,
        cycles: u32,
    ) -> (s: Session)
        requires
            cycles >= 1,
        ensures
            s.is_built_from(work_minutes, short_break_minutes, long_break_minutes, cycles),
    {
        let mut phases: Vec<Phase> = Vec::new();
        let mut cycle: u32 = 0;
        while cycle < cycles - 1
            invariant
                cycles >= 1,
                cycle <= cycles - 1,
                phases@.len() == 2 * cycle,
                forall|i: int| 0 <= i < phases@.len()
                    ==> phases@[i] == session_phase_at(
                        work_minutes, short_break_minutes, long_break_minutes, cycles, i,
                    ),
            decreases cycles - 1 - cycle,
        {
            phases.push(Phase::from_minutes(PhaseKind::Work, work_minutes));
            phases.push(Phase::from_minutes(PhaseKind::ShortBreak, short_break_minutes));
            cycle = cycle + 1;
        }
        phases.push(Phase::from_minutes(PhaseKind::Work, work_minutes));
        phases.push(Phase::from_minutes(PhaseKind::LongBreak, long_break_minutes));
        Session { phases }
    }

    /// Build the session for the four parameters, rejecting a cycle count of
    /// zero — the one configuration no session can satisfy — before any
    /// phase starts.
    pub fn try_build(
        work_minutes: u32,
        short_break_minutes: u32,
        long_break_minutes: u32,
        cycles: u32,
    ) -> (r: Result<Session, ConfigError>)
        ensures
            match r {
                Ok(s) => cycles >= 1 && s.is_built_from(
                    work_minutes,
                    short_break_minutes,
                    long_break_minutes,
                    cycles,
                ),
                Err(e) => cycles == 0 && e == ConfigError::ZeroCycles,
            },
    {
        if cycles == 0 {
            Err(ConfigError::ZeroCycles)
        } else {
            Ok(Session::build(work_minutes, short_break_minutes, long_break_minutes, cycles))
        }
    }

    /// Build the session for a single ad-hoc timer of `minutes` minutes:
    /// one phase, no breaks.
    pub fn build_adhoc(minutes: u32) -> (s: Session)
        ensures
            s.phases@.len() == 1,
            s.phases@[0].kind == PhaseKind::AdHocTimer,
            s.phases@[0].duration_seconds == minutes * 60,
    {
        let mut phases: Vec<Phase> = Vec::new();
        phases.push(Phase::from_minutes(PhaseKind::AdHocTimer, minutes));
        Session { phases }
    }

    /// How many phases of `kind` the session holds.
    pub open spec fn count_of_kind(&self, kind: PhaseKind) -> nat {
        count_kind(self.phases@, kind)
    }
}

/// How many phases of `kind` stand in the sequence.
pub open spec fn count_kind(phases: Seq<Phase>, kind: PhaseKind) -> nat
    decreases phases.len(),
{
    if phases.len() == 0 {
        0
    } else {
        count_kind(phases.drop_last(), kind) + (if phases.last().kind == kind {
            1nat
        } else {
            0nat
        })
    }
}

proof fn lemma_built_prefix_counts(
    phases: Seq<Phase>,
    work_minutes: u32,
    short_break_minutes: u32,
    long_break_minutes: u32,
    cycles: u32,
    n: int,
)
    requires
        cycles >= 1,
        phases.len() == 2 * cycles,
        forall|i: int| 0 <= i < phases.len()
            ==> phases[i] == session_phase_at(
                work_minutes, short_break_minutes, long_break_minutes, cycles, i,
            ),
        0 <= n <= 2 * cycles - 1,
    ensures
        count_kind(phases.take(n), PhaseKind::Work) == (n + 1) / 2,
        count_kind(phases.take(n), PhaseKind::ShortBreak) == n / 2,
        count_kind(phases.take(n), PhaseKind::LongBreak) == 0,
        count_kind(phases.take(n), PhaseKind::AdHocTimer) == 0,
    decreases n,
{
    if n == 0 {
        assert(phases.take(0).len() == 0);
    } else {
        lemma_built_prefix_counts(
            phases, work_minutes, short_break_minutes, long_break_minutes, cycles, n - 1,
        );
        assert(phases.take(n).drop_last() =~= phases.take(n - 1));
        assert(phases.take(n).last() == phases[n - 1]);
    }
}

/// The shape a built session always has: exactly `cycles` work phases,
/// `cycles - 1` short breaks, one long break and no ad-hoc timer, with the
/// long break last.
pub proof fn lemma_session_phase_counts(
    s: &Session,
    work_minutes: u32,
    short_break_minutes: u32,
    long_break_minutes: u32,
    cycles: u32,
)
    requires
        cycles >= 1,
        s.is_built_from(work_minutes, short_break_minutes, long_break_minutes, cycles),
    ensures
        s.count_of_kind(PhaseKind::Work) == cycles,
        s.count_of_kind(PhaseKind::ShortBreak) == (cycles - 1) as nat,
        s.count_of_kind(PhaseKind::LongBreak) == 1,
        s.count_of_kind(PhaseKind::AdHocTimer) == 0,
        s.phases@.last().kind == PhaseKind::LongBreak,
{
    let phases = s.phases@;
    lemma_built_prefix_counts(
        phases,
        work_minutes,
        short_break_minutes,
        long_break_minutes,
        cycles,
        2 * cycles - 1,
    );
    assert(phases.drop_last() =~= phases.take(2 * cycles - 1));
    assert(phases.last() == phases[2 * cycles - 1]);
}

} // verus!
