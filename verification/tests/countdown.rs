use pomocli::countdown::Countdown;
use pomocli::countdown::PhaseProgress;
use pomocli::countdown::Tick;
use pomocli::phase::Phase;
use pomocli::phase::PhaseKind;

fn elapsed_of(t: &Tick) -> u64 {
    match t {
        Tick::Progress(p) => p.elapsed_seconds,
        Tick::Complete(p) => p.elapsed_seconds,
    }
}

fn completions(events: &[Tick]) -> usize {
    events.iter().filter(|t| matches!(t, Tick::Complete(_))).count()
}

#[test]
fn countdown_ends_exactly_at_duration_with_one_completion() {
    let readings: Vec<u64> = vec![0, 0, 1, 2, 2, 3, 5, 9];
    let events = Countdown::run_phase(5, &readings);
    // monotone elapsed values, ending exactly at the duration
    for pair in events.windows(2) {
        assert!(elapsed_of(&pair[0]) <= elapsed_of(&pair[1]));
    }
    let last = events.last().unwrap();
    assert!(matches!(last, Tick::Complete(_)));
    assert_eq!(elapsed_of(last), 5);
    assert_eq!(completions(&events), 1);
}

#[test]
fn countdown_first_event_is_position_zero() {
    let readings: Vec<u64> = vec![3, 10];
    let events = Countdown::run_phase(8, &readings);
    assert_eq!(
        events[0],
        Tick::Progress(PhaseProgress {
            elapsed_seconds: 0,
            remaining_seconds: 8,
            total_seconds: 8,
        })
    );
    assert_eq!(events.len(), 3);
    assert_eq!(
        events[1],
        Tick::Progress(PhaseProgress {
            elapsed_seconds: 3,
            remaining_seconds: 5,
            total_seconds: 8,
        })
    );
    assert_eq!(
        events[2],
        Tick::Complete(PhaseProgress {
            elapsed_seconds: 8,
            remaining_seconds: 0,
            total_seconds: 8,
        })
    );
}

#[test]
fn countdown_without_enough_time_never_completes() {
    let readings: Vec<u64> = vec![1, 2, 3];
    let events = Countdown::run_phase(10, &readings);
    assert_eq!(events.len(), 4);
    assert_eq!(completions(&events), 0);
    assert_eq!(elapsed_of(events.last().unwrap()), 3);
}

#[test]
fn countdown_elapsed_never_moves_backwards() {
    // a reading smaller than an earlier one must not drag progress back
    let readings: Vec<u64> = vec![4, 2, 6, 20];
    let events = Countdown::run_phase(10, &readings);
    assert_eq!(elapsed_of(&events[1]), 4);
    assert_eq!(elapsed_of(&events[2]), 4);
    assert_eq!(elapsed_of(&events[3]), 6);
    assert!(matches!(events[4], Tick::Complete(_)));
}

#[test]
fn zero_duration_completes_immediately() {
    let readings: Vec<u64> = Vec::new();
    let events = Countdown::run_phase(0, &readings);
    assert_eq!(events.len(), 1);
    assert_eq!(
        events[0],
        Tick::Complete(PhaseProgress {
            elapsed_seconds: 0,
            remaining_seconds: 0,
            total_seconds: 0,
        })
    );
    assert_eq!(completions(&events), 1);
}

#[test]
fn zero_duration_completes_even_with_readings_waiting() {
    let readings: Vec<u64> = vec![0, 1, 2];
    let events = Countdown::run_phase(0, &readings);
    assert_eq!(events.len(), 1);
    assert_eq!(completions(&events), 1);
}

#[test]
fn stepping_an_engine_by_hand_matches_the_run() {
    let phase = Phase::from_minutes(PhaseKind::Work, 1);
    assert_eq!(phase.duration_seconds, 60);
    let mut engine = Countdown::for_phase(&phase);
    assert!(!engine.is_completed());
    let first = engine.step(0);
    assert_eq!(
        first,
        Tick::Progress(PhaseProgress {
            elapsed_seconds: 0,
            remaining_seconds: 60,
            total_seconds: 60,
        })
    );
    let mid = engine.step(30);
    assert_eq!(elapsed_of(&mid), 30);
    assert!(!engine.is_completed());
    let done = engine.step(60);
    assert_eq!(
        done,
        Tick::Complete(PhaseProgress {
            elapsed_seconds: 60,
            remaining_seconds: 0,
            total_seconds: 60,
        })
    );
    assert!(engine.is_completed());
}
