use backup_monitor::evaluate::{evaluate_history, is_relevant};
use backup_monitor::model::{BackupWindowStatus, TimeWindow};

fn entry(w: TimeWindow, status: &str) -> BackupWindowStatus {
    BackupWindowStatus { time_window: w, status: status.to_string() }
}

#[test]
fn relevance_of_each_window() {
    assert!(is_relevant(TimeWindow::Between0dAnd1d));
    assert!(is_relevant(TimeWindow::Between1dAnd2d));
    assert!(is_relevant(TimeWindow::Between2dAnd3d));
    assert!(!is_relevant(TimeWindow::Other));
}

#[test]
fn three_relevant_failures_alert() {
    let history = vec![
        entry(TimeWindow::Between0dAnd1d, "Failed"),
        entry(TimeWindow::Between1dAnd2d, "Failed"),
        entry(TimeWindow::Between2dAnd3d, "Failed"),
    ];
    let r = evaluate_history(&history).expect("three failures must alert");
    assert_eq!(r.len(), 3);
    assert_eq!(r[0].time_window, TimeWindow::Between0dAnd1d);
    assert_eq!(r[1].time_window, TimeWindow::Between1dAnd2d);
    assert_eq!(r[2].time_window, TimeWindow::Between2dAnd3d);
}

#[test]
fn zero_one_or_two_failures_never_alert() {
    let mut history = vec![
        entry(TimeWindow::Between0dAnd1d, "Perfect"),
        entry(TimeWindow::Between1dAnd2d, "Perfect"),
        entry(TimeWindow::Between2dAnd3d, "Perfect"),
    ];
    assert!(evaluate_history(&history).is_none());
    history[0].status = "Failed".to_string();
    assert!(evaluate_history(&history).is_none());
    history[1].status = "Failed".to_string();
    assert!(evaluate_history(&history).is_none());
}

#[test]
fn two_relevant_failures_without_third_window_never_alert() {
    let history = vec![
        entry(TimeWindow::Between0dAnd1d, "Failed"),
        entry(TimeWindow::Between1dAnd2d, "Failed"),
    ];
    assert!(evaluate_history(&history).is_none());
}

#[test]
fn four_relevant_failures_never_alert() {
    let history = vec![
        entry(TimeWindow::Between0dAnd1d, "Failed"),
        entry(TimeWindow::Between1dAnd2d, "Failed"),
        entry(TimeWindow::Between2dAnd3d, "Failed"),
        entry(TimeWindow::Between0dAnd1d, "Failed"),
    ];
    assert!(evaluate_history(&history).is_none());
}

#[test]
fn three_failures_among_four_relevant_alert_with_all_relevant_windows() {
    let history = vec![
        entry(TimeWindow::Between0dAnd1d, "Failed"),
        entry(TimeWindow::Between1dAnd2d, "Failed"),
        entry(TimeWindow::Between2dAnd3d, "Perfect"),
        entry(TimeWindow::Between2dAnd3d, "Failed"),
    ];
    let r = evaluate_history(&history).expect("exactly three failures must alert");
    assert_eq!(r.len(), 4);
    assert_eq!(r[2].status, "Perfect");
}

#[test]
fn irrelevant_windows_never_influence_the_decision() {
    let relevant_only = vec![
        entry(TimeWindow::Between0dAnd1d, "Failed"),
        entry(TimeWindow::Between1dAnd2d, "Failed"),
        entry(TimeWindow::Between2dAnd3d, "Failed"),
    ];
    let mut with_noise = relevant_only.clone();
    with_noise.insert(0, entry(TimeWindow::Other, "Failed"));
    with_noise.push(entry(TimeWindow::Other, "Failed"));
    let a = evaluate_history(&relevant_only).expect("must alert");
    let b = evaluate_history(&with_noise).expect("noise must not suppress the alert");
    assert_eq!(a.len(), b.len());
    for (x, y) in a.iter().zip(b.iter()) {
        assert_eq!(x.time_window, y.time_window);
        assert_eq!(x.status, y.status);
    }
    let only_noise = vec![
        entry(TimeWindow::Other, "Failed"),
        entry(TimeWindow::Other, "Failed"),
        entry(TimeWindow::Other, "Failed"),
    ];
    assert!(evaluate_history(&only_noise).is_none());
}

#[test]
fn non_perfect_statuses_all_count_as_failures() {
    let history = vec![
        entry(TimeWindow::Between0dAnd1d, "Warning"),
        entry(TimeWindow::Between1dAnd2d, ""),
        entry(TimeWindow::Between2dAnd3d, "perfect"),
    ];
    assert!(evaluate_history(&history).is_some());
}

#[test]
fn evaluation_is_idempotent() {
    let history = vec![
        entry(TimeWindow::Between2dAnd3d, "Failed"),
        entry(TimeWindow::Other, "Perfect"),
        entry(TimeWindow::Between0dAnd1d, "Failed"),
        entry(TimeWindow::Between1dAnd2d, "Failed"),
    ];
    let a = evaluate_history(&history).expect("must alert");
    let b = evaluate_history(&history).expect("must alert again");
    assert_eq!(a.len(), b.len());
    for (x, y) in a.iter().zip(b.iter()) {
        assert_eq!(x.time_window, y.time_window);
        assert_eq!(x.status, y.status);
    }
    assert_eq!(a[0].time_window, TimeWindow::Between2dAnd3d);
    assert_eq!(a[1].time_window, TimeWindow::Between0dAnd1d);
    assert_eq!(a[2].time_window, TimeWindow::Between1dAnd2d);
}
