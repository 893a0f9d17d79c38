use online_code_checker::dispatcher::{Dispatcher, ScanRow};

fn rows(items: &[(i64, &str)]) -> Vec<ScanRow> {
    items.iter().map(|(id, s)| ScanRow { id: *id, status: s.to_string() }).collect()
}

#[test]
fn never_more_running_than_permits() {
    let mut d = Dispatcher::new(2);
    let started = d.on_scan(&rows(&[(1, "Pending"), (2, "Pending"), (3, "Pending"), (4, "Pending")]));
    assert_eq!(started, vec![1, 2]);
    assert_eq!(d.on_scan(&rows(&[(5, "Pending")])), Vec::<i64>::new());
    assert_eq!(d.on_finished(2), Some(3));
    assert_eq!(d.on_finished(1), Some(4));
    assert_eq!(d.on_finished(3), Some(5));
    assert_eq!(d.on_finished(4), None);
    assert_eq!(d.on_finished(5), None);
    assert_eq!(d.on_scan(&rows(&[(6, "Pending"), (7, "Pending")])), vec![6, 7]);
}

#[test]
fn repeated_signal_does_not_reprocess() {
    let mut d = Dispatcher::new(4);
    assert_eq!(d.on_scan(&rows(&[(1, "Pending")])), vec![1]);
    assert_eq!(d.on_scan(&rows(&[(1, "Pending")])), Vec::<i64>::new());
    assert_eq!(d.on_finished(1), None);
    assert_eq!(d.on_scan(&rows(&[(1, "AC"), (2, "WA"), (3, "Pending"), (3, "Pending")])), vec![3]);
}

#[test]
fn empty_scan_keeps_state() {
    let mut d = Dispatcher::new(1);
    assert_eq!(d.on_scan(&Vec::new()), Vec::<i64>::new());
    assert_eq!(d.on_scan(&rows(&[(9, "Pending")])), vec![9]);
}

#[test]
fn finishing_unknown_id_changes_nothing() {
    let mut d = Dispatcher::new(1);
    assert_eq!(d.on_scan(&rows(&[(1, "Pending"), (2, "Pending")])), vec![1]);
    assert_eq!(d.on_finished(2), None);
    assert_eq!(d.on_finished(42), None);
    assert_eq!(d.on_finished(1), Some(2));
}
