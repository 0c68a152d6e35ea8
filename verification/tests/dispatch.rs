use dlm::coordinator::run_dispatch;
use dlm::dlm_error::DlmError;
use dlm::progress_bars::{message_progress_bar, ProgressHandle};
use dlm::worker::{complete_task, start_task, DownloadTask, FetchSignal};

fn task(name: &str) -> DownloadTask {
    DownloadTask {
        url: format!("http://mirror.example/{name}"),
        label: String::from(name),
    }
}

#[test]
fn scenario_all_succeed() {
    // 10 tasks, concurrency limit 3, all succeed.
    let tasks: Vec<DownloadTask> = (0..10).map(|i| task(&format!("file{i}"))).collect();
    let signals: Vec<FetchSignal> =
        (0..10).map(|i| FetchSignal::Success { bytes: 100 + i }).collect();
    let report = run_dispatch(&tasks, &signals, 3);
    assert_eq!(report.outcomes.len(), 10);
    for (i, out) in report.outcomes.iter().enumerate() {
        assert_eq!(*out.as_ref().unwrap(), 100 + i as u64);
    }
    assert_eq!(report.aggregate.total, 10);
    assert_eq!(report.aggregate.completed, 10);
    assert!(report.aggregate.finalized);
    assert_eq!(report.pool.n, 3);
    assert_eq!(report.pool.free.len(), 3);
}

#[test]
fn scenario_one_connection_closed() {
    // 5 tasks, concurrency limit 2, the third hits a closed connection.
    let tasks: Vec<DownloadTask> = (0..5).map(|i| task(&format!("file{i}"))).collect();
    let mut signals: Vec<FetchSignal> =
        (0..5).map(|_| FetchSignal::Success { bytes: 64 }).collect();
    signals[2] = FetchSignal::TransportFailure {
        message: String::from("connection closed before message completed"),
    };
    let report = run_dispatch(&tasks, &signals, 2);
    assert_eq!(report.outcomes.len(), 5);
    for (i, out) in report.outcomes.iter().enumerate() {
        if i == 2 {
            assert!(matches!(out, Err(DlmError::ConnectionClosed)));
        } else {
            assert_eq!(*out.as_ref().unwrap(), 64);
        }
    }
    assert_eq!(report.aggregate.completed, 5);
    assert_eq!(report.aggregate.total, 5);
    assert!(report.aggregate.finalized);
    assert_eq!(report.pool.free.len(), 2);
}

#[test]
fn scenario_single_lane() {
    // Concurrency limit 1 with 4 tasks: one lane serves them all.
    let tasks: Vec<DownloadTask> = (0..4).map(|i| task(&format!("file{i}"))).collect();
    let signals: Vec<FetchSignal> = (0..4).map(|_| FetchSignal::Success { bytes: 1 }).collect();
    let report = run_dispatch(&tasks, &signals, 1);
    assert_eq!(report.outcomes.len(), 4);
    assert!(report.outcomes.iter().all(|o| o.is_ok()));
    assert_eq!(report.pool.n, 1);
    assert_eq!(report.pool.free.len(), 1);
    assert_eq!(report.pool.free[0].lane, 0);
}

#[test]
fn aggregate_reaches_total_on_any_mix() {
    let tasks: Vec<DownloadTask> = (0..6).map(|i| task(&format!("file{i}"))).collect();
    let signals = vec![
        FetchSignal::Success { bytes: 10 },
        FetchSignal::TransportFailure {
            message: String::from("error reading a body from connection"),
        },
        FetchSignal::BadStatus { detail: String::from("404 Not Found") },
        FetchSignal::TransportFailure {
            message: String::from("error trying to connect: operation timed out"),
        },
        FetchSignal::TransportFailure { message: String::from("mystifying breakage") },
        FetchSignal::Success { bytes: 20 },
    ];
    let report = run_dispatch(&tasks, &signals, 2);
    assert_eq!(report.aggregate.completed, report.aggregate.total);
    assert_eq!(report.aggregate.total, 6);
    assert!(matches!(report.outcomes[1], Err(DlmError::ResponseBodyError)));
    match &report.outcomes[2] {
        Err(DlmError::ResponseStatusNotSuccess { detail }) => assert_eq!(detail, "404 Not Found"),
        other => panic!("expected a bad-status outcome, got {:?}", other),
    }
    assert!(matches!(report.outcomes[3], Err(DlmError::ConnectionTimeout)));
    match &report.outcomes[4] {
        Err(DlmError::Other { message }) => assert_eq!(message, "mystifying breakage"),
        other => panic!("expected the catch-all outcome, got {:?}", other),
    }
    for h in report.pool.free.iter() {
        assert!(h.finished);
    }
}

#[test]
fn worker_marks_success_label_and_byte_counts() {
    let mut h = ProgressHandle::new(0);
    let t = task("archive.tar");
    start_task(&mut h, &t);
    assert_eq!(h.label, message_progress_bar("archive.tar"));
    let out = complete_task(&mut h, &t, &FetchSignal::Success { bytes: 2048 });
    assert_eq!(out.unwrap(), 2048);
    assert_eq!(h.position, 2048);
    assert_eq!(h.total, 2048);
    assert_eq!(h.label, message_progress_bar("ok archive.tar"));
    assert!(!h.finished);
}

#[test]
fn worker_marks_failure_label_with_detail() {
    let mut h = ProgressHandle::new(0);
    let t = task("archive.tar");
    start_task(&mut h, &t);
    let out = complete_task(
        &mut h,
        &t,
        &FetchSignal::TransportFailure {
            message: String::from("connection closed before message completed"),
        },
    );
    assert!(matches!(out, Err(DlmError::ConnectionClosed)));
    assert_eq!(h.label, message_progress_bar("err: connection closed"));
}

#[test]
fn worker_streams_progress_updates() {
    let mut h = ProgressHandle::new(0);
    let t = task("notes.txt");
    start_task(&mut h, &t);
    h.set_total(300);
    h.advance(100);
    h.advance(150);
    assert_eq!(h.position, 250);
    assert_eq!(h.total, 300);
}
