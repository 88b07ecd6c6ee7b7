use condor::benchmarker::{parse_worker_count, BenchmarkerConsoleEvent, BenchmarkerState, WorkerStatus};

fn row(state: &BenchmarkerState, w: u8) -> &WorkerStatus {
    state.results.get(&w).unwrap()
}

#[test]
fn first_progress_creates_a_row() {
    let mut state = BenchmarkerState::new();
    state.apply(BenchmarkerConsoleEvent::Progress { worker: 4, current_frame: 10, total_frames: 100 }, 1_000);
    assert_eq!(state.results.len(), 1);
    let ws = row(&state, 4);
    assert_eq!(ws.started, 1_000);
    assert_eq!(ws.finished, None);
    assert!(!ws.added);
    assert!(ws.failed_reason.is_none());
    assert_eq!((ws.current_frame, ws.total_frames), (10, 100));
}

#[test]
fn later_progress_keeps_start_time() {
    let mut state = BenchmarkerState::new();
    state.apply(BenchmarkerConsoleEvent::Progress { worker: 4, current_frame: 10, total_frames: 100 }, 1_000);
    state.apply(BenchmarkerConsoleEvent::Progress { worker: 4, current_frame: 50, total_frames: 120 }, 9_000);
    let ws = row(&state, 4);
    assert_eq!(ws.started, 1_000);
    assert_eq!((ws.current_frame, ws.total_frames), (50, 120));
}

#[test]
fn reports_on_unknown_workers_change_nothing() {
    let mut state = BenchmarkerState::new();
    state.apply(BenchmarkerConsoleEvent::WorkerAdded { worker: 2 }, 5);
    state.apply(BenchmarkerConsoleEvent::WorkerCompleted { worker: 2 }, 5);
    state.apply(BenchmarkerConsoleEvent::WorkerFailed { worker: 2, error: "oom".to_owned() }, 5);
    assert!(state.results.is_empty());
}

#[test]
fn completion_addition_and_failure() {
    let mut state = BenchmarkerState::new();
    state.apply(BenchmarkerConsoleEvent::Progress { worker: 1, current_frame: 1, total_frames: 2 }, 10);
    state.apply(BenchmarkerConsoleEvent::Progress { worker: 2, current_frame: 1, total_frames: 2 }, 10);
    state.apply(BenchmarkerConsoleEvent::WorkerCompleted { worker: 1 }, 40);
    state.apply(BenchmarkerConsoleEvent::WorkerAdded { worker: 1 }, 50);
    state.apply(BenchmarkerConsoleEvent::WorkerFailed { worker: 2, error: "too slow".to_owned() }, 60);
    assert_eq!(row(&state, 1).finished, Some(40));
    assert!(row(&state, 1).added);
    assert_eq!(row(&state, 1).status(), "✓");
    assert_eq!(row(&state, 2).failed_reason.as_deref(), Some("too slow"));
    assert_eq!(row(&state, 2).status(), "✕");
    assert_eq!(row(&state, 2).finished, None);
}

#[test]
fn status_marks() {
    let mut ws = WorkerStatus {
        started: 0,
        finished: None,
        added: false,
        failed_reason: None,
        current_frame: 0,
        total_frames: 0,
    };
    assert_eq!(ws.status(), "-");
    ws.added = true;
    assert_eq!(ws.status(), "✓");
    ws.failed_reason = Some("x".to_owned());
    assert_eq!(ws.status(), "✕");
}

#[test]
fn worker_ids_parse_like_u8() {
    for id in ["0", "7", "255", "+12", "007", "256", "-1", "", "+", "1a", " 1", "12 ", "99999999999999999999"] {
        assert_eq!(parse_worker_count(id), id.parse::<u8>().ok(), "id {:?}", id);
    }
}
