use basic::{greet, greeting_line, Initialize, Log};

#[test]
fn greeting_line_is_fixed() {
    assert_eq!(greeting_line(), "GM!");
}

#[test]
fn new_log_is_empty() {
    let log = Log::new();
    assert_eq!(log.len(), 0);
}

#[test]
fn greet_succeeds_and_logs_once() {
    let ctx = Initialize::new();
    let mut log = Log::new();
    let r = greet(&ctx, &mut log);
    assert!(r.is_ok());
    assert_eq!(log.len(), 1);
    assert_eq!(log.line(0), "GM!");
}

#[test]
fn greet_repeated_is_independent() {
    let ctx = Initialize::new();
    let mut log = Log::new();
    for _ in 0..100usize {
        let before = log.len();
        let r = greet(&ctx, &mut log);
        assert!(r.is_ok());
        assert_eq!(log.len(), before + 1);
        assert_eq!(log.line(before), "GM!");
    }
    assert_eq!(log.len(), 100);
    for i in 0..100usize {
        assert_eq!(log.line(i), "GM!");
    }
}

#[test]
fn write_appends_exactly_one_line() {
    let mut log = Log::new();
    log.write(String::from("first"));
    log.write(String::from("second"));
    assert_eq!(log.len(), 2);
    assert_eq!(log.line(0), "first");
    assert_eq!(log.line(1), "second");
}
