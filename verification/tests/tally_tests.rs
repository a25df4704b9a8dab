use pam_any::mode::Mode;
use pam_any::tally::{Tally, Verdict};

fn run(mode: Mode, total: usize, results: &[bool]) -> Option<Verdict> {
    let mut tally = Tally::new(mode, total);
    let mut verdict = None;
    for &ok in results {
        verdict = tally.record(ok);
        if verdict.is_some() {
            break;
        }
    }
    verdict
}

#[test]
fn one_succeeds_at_first_success() {
    let mut tally = Tally::new(Mode::One, 3);
    assert_eq!(tally.record(false), None);
    assert_eq!(tally.record(true), Some(Verdict::Success));
    assert_eq!(tally.verdict(), Some(Verdict::Success));
    assert_eq!(tally.awaiting(), 1);
}

#[test]
fn one_fails_when_every_service_failed() {
    assert_eq!(run(Mode::One, 3, &[false, false, false]), Some(Verdict::Failure));
    assert_eq!(run(Mode::One, 3, &[false, false]), None);
}

#[test]
fn all_fails_at_first_failure() {
    let mut tally = Tally::new(Mode::All, 2);
    assert_eq!(tally.record(false), Some(Verdict::Failure));
    assert_eq!(tally.awaiting(), 1);
}

#[test]
fn all_succeeds_when_every_service_succeeded() {
    assert_eq!(run(Mode::All, 2, &[true, true]), Some(Verdict::Success));
    assert_eq!(run(Mode::All, 2, &[true]), None);
}

#[test]
fn single_service_decides_alone() {
    assert_eq!(run(Mode::One, 1, &[false]), Some(Verdict::Failure));
    assert_eq!(run(Mode::One, 1, &[true]), Some(Verdict::Success));
    assert_eq!(run(Mode::All, 1, &[true]), Some(Verdict::Success));
    assert_eq!(run(Mode::All, 1, &[false]), Some(Verdict::Failure));
}

#[test]
fn new_tally_is_open() {
    let tally = Tally::new(Mode::One, 2);
    assert_eq!(tally.verdict(), None);
    assert_eq!(tally.awaiting(), 2);
}

#[test]
fn order_of_results_does_not_matter() {
    assert_eq!(run(Mode::One, 3, &[false, false, true]), run(Mode::One, 3, &[true, false, false]));
    assert_eq!(run(Mode::All, 3, &[true, true, false]), run(Mode::All, 3, &[false, true, true]));
}

#[test]
fn early_verdict_matches_complete_verdict() {
    // Mode One settles at the first success; the full run agrees.
    let mut tally = Tally::new(Mode::One, 3);
    assert_eq!(tally.record(true), Some(Verdict::Success));
    // Mode All settles at the first failure.
    let mut tally = Tally::new(Mode::All, 3);
    assert_eq!(tally.record(true), None);
    assert_eq!(tally.record(false), Some(Verdict::Failure));
}

#[test]
fn no_services_fails_at_once() {
    let tally = Tally::new(Mode::One, 0);
    assert_eq!(tally.verdict(), Some(Verdict::Failure));
    assert_eq!(tally.awaiting(), 0);
    let tally = Tally::new(Mode::All, 0);
    assert_eq!(tally.verdict(), Some(Verdict::Failure));
}
