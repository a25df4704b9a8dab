use pam_any::input::Input;
use pam_any::mode::Mode;
use pam_any::session::{Session, Step};
use pam_any::tally::Verdict;

fn input(mode: Mode, n: usize, silence: bool) -> Input {
    Input {
        mode,
        modules: (0..n).map(|i| (format!("svc{}", i), format!("Service {}", i))).collect(),
        silence_messages: silence,
    }
}

#[test]
fn one_prompt_between_results() {
    let mut s = Session::new(&input(Mode::One, 2, false));
    assert!(s.accepts_prompt());
    s.on_prompt_answered();
    assert!(!s.accepts_prompt());
    assert_eq!(s.on_result(false), None);
    assert!(s.accepts_prompt());
}

#[test]
fn session_settles_like_tally() {
    let mut s = Session::new(&input(Mode::All, 2, false));
    assert_eq!(s.awaiting(), 2);
    assert_eq!(s.on_result(true), None);
    assert_eq!(s.on_result(true), Some(Verdict::Success));
    assert_eq!(s.verdict(), Some(Verdict::Success));
    assert_eq!(s.awaiting(), 0);
}

#[test]
fn messages_forwarded_unless_silenced() {
    assert!(Session::new(&input(Mode::One, 1, false)).forwards_messages());
    assert!(!Session::new(&input(Mode::One, 1, true)).forwards_messages());
}

#[test]
fn session_without_services_fails() {
    let s = Session::new(&input(Mode::One, 0, false));
    assert_eq!(s.verdict(), Some(Verdict::Failure));
    let s = Session::new(&input(Mode::All, 0, false));
    assert_eq!(s.verdict(), Some(Verdict::Failure));
}

#[test]
fn next_step_serves_results_first() {
    let mut s = Session::new(&input(Mode::One, 2, false));
    assert_eq!(s.next_step(true, true, true), Step::TakeResults);
    assert_eq!(s.next_step(false, true, true), Step::ShowMessages);
    assert_eq!(s.next_step(false, false, true), Step::Answer);
    assert_eq!(s.next_step(false, false, false), Step::Wait);
    s.on_prompt_answered();
    assert_eq!(s.next_step(false, false, true), Step::Wait);
    assert_eq!(s.on_result(false), None);
    assert_eq!(s.next_step(false, false, true), Step::Answer);
}
