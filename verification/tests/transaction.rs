use flatpak_installer::transaction::{progress_sizes, reply_to, OperationSize, Reply, Request};

#[test]
fn replies() {
    assert!(matches!(reply_to(&Request::RunTransaction, Ok(())), Some(Reply::Done)));
    assert!(reply_to(&Request::AddRefFile("a".to_string()), Ok(())).is_none());
    assert!(reply_to(&Request::AddBundleFile("b".to_string()), Ok(())).is_none());
    match reply_to(&Request::RunTransaction, Err("boom".to_string())) {
        Some(Reply::Failed(m)) => assert_eq!(m, "boom"),
        other => panic!("unexpected {:?}", other),
    }
    match reply_to(&Request::AddBundleFile("b".to_string()), Err("bad bundle".to_string())) {
        Some(Reply::Failed(m)) => assert_eq!(m, "bad bundle"),
        other => panic!("unexpected {:?}", other),
    }
}

fn op(installed: u64, download: u64, is_current: bool) -> OperationSize {
    OperationSize { installed, download, is_current }
}

#[test]
fn progress_of_the_second_operation() {
    let ops = vec![op(100, 10, false), op(200, 20, true), op(300, 30, false)];
    let s = progress_sizes(&ops, 200, 20);
    assert_eq!(s.total, 660);
    assert_eq!(s.before, 110);
    assert_eq!(s.current, 220);
}

#[test]
fn progress_without_current_operation_counts_all_before() {
    let ops = vec![op(1, 2, false), op(3, 4, false)];
    let s = progress_sizes(&ops, 5, 6);
    assert_eq!(s.total, 10);
    assert_eq!(s.before, 10);
    assert_eq!(s.current, 11);
    let s = progress_sizes(&Vec::new(), 0, 0);
    assert_eq!((s.total, s.before, s.current), (0, 0, 0));
}

#[test]
fn progress_of_the_first_operation() {
    let ops = vec![op(5, 5, true), op(7, 0, true)];
    let s = progress_sizes(&ops, 5, 5);
    assert_eq!(s.before, 0);
    assert_eq!(s.total, 17);
}
