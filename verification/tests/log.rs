use messages_actix::message_log::MessageLog;

#[test]
fn appends_then_snapshot_in_call_order() {
    let mut log = MessageLog::new();
    assert_eq!(log.append("first".to_owned()), 0);
    assert_eq!(log.append("second".to_owned()), 1);
    assert_eq!(log.append("third".to_owned()), 2);
    let snap = log.snapshot();
    assert_eq!(
        snap,
        vec!["first".to_owned(), "second".to_owned(), "third".to_owned()]
    );
}

#[test]
fn snapshot_is_independent_of_later_mutation() {
    let mut log = MessageLog::new();
    log.append("kept".to_owned());
    let snap = log.snapshot();
    log.append("later".to_owned());
    log.clear();
    assert_eq!(snap, vec!["kept".to_owned()]);
}

#[test]
fn clear_then_snapshot_is_empty() {
    let mut log = MessageLog::new();
    log.append("a".to_owned());
    log.append("b".to_owned());
    log.clear();
    assert!(log.snapshot().is_empty());
    assert_eq!(log.len(), 0);
}

#[test]
fn get_returns_ith_appended_text_and_none_past_the_end() {
    let mut log = MessageLog::new();
    log.append("zero".to_owned());
    log.append("one".to_owned());
    assert_eq!(log.len(), 2);
    assert_eq!(log.get(0), Some("zero".to_owned()));
    assert_eq!(log.get(1), Some("one".to_owned()));
    assert_eq!(log.get(2), None);
    assert_eq!(log.get(usize::MAX), None);
}
