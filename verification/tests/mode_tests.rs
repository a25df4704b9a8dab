use pam_any::mode::Mode;

#[test]
fn from_str_reads_one() {
    assert_eq!(Mode::from_str("one"), Ok(Mode::One));
}

#[test]
fn from_str_reads_all() {
    assert_eq!(Mode::from_str("all"), Ok(Mode::All));
}

#[test]
fn from_str_refuses_other_words() {
    assert_eq!(Mode::from_str("One"), Err(()));
    assert_eq!(Mode::from_str("ALL"), Err(()));
    assert_eq!(Mode::from_str(""), Err(()));
    assert_eq!(Mode::from_str("ones"), Err(()));
    assert_eq!(Mode::from_str("on"), Err(()));
    assert_eq!(Mode::from_str("alé"), Err(()));
}

#[test]
fn should_signal_only_when_result_settles() {
    assert!(Mode::One.should_signal(true));
    assert!(!Mode::One.should_signal(false));
    assert!(Mode::All.should_signal(false));
    assert!(!Mode::All.should_signal(true));
}
