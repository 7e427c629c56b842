use phantom_ci::branch::{parse_head_branch, resolve_branch};
use phantom_ci::detect::{ChangeDetector, ChangeOutcome, DetectAction, DetectEvent};

fn to_read_recorded(tip: &str) -> ChangeDetector {
    let mut d = ChangeDetector::start("main".to_string());
    d.step(DetectEvent::Fetched(true));
    d.step(DetectEvent::Remote { preferred_exists: true, default_branch: None });
    d.step(DetectEvent::Tip(Some(tip.to_string())));
    assert!(matches!(&d.pending, DetectAction::ReadRecorded(b) if b == "main"));
    d
}

fn outcome(d: &ChangeDetector) -> Option<ChangeOutcome> {
    match &d.pending {
        DetectAction::Finish(o) => Some(*o),
        _ => None,
    }
}

#[test]
fn first_observation_records_baseline_without_trigger() {
    let mut d = to_read_recorded("abc");
    d.step(DetectEvent::Recorded(String::new()));
    assert!(matches!(&d.pending, DetectAction::Record(b, s) if b == "main" && s == "abc"));
    d.step(DetectEvent::Stored(true));
    assert_eq!(outcome(&d), Some(ChangeOutcome::FirstSeen));
}

#[test]
fn same_commit_is_no_change_and_writes_nothing() {
    let mut d = to_read_recorded("abc");
    d.step(DetectEvent::Recorded("abc".to_string()));
    assert_eq!(outcome(&d), Some(ChangeOutcome::NoChange));
}

#[test]
fn new_commit_is_recorded_before_change() {
    let mut d = to_read_recorded("bbb");
    d.step(DetectEvent::Recorded("aaa".to_string()));
    assert!(matches!(&d.pending, DetectAction::Record(_, s) if s == "bbb"));
    d.step(DetectEvent::Stored(true));
    assert_eq!(outcome(&d), Some(ChangeOutcome::Changed));
}

#[test]
fn failed_record_is_an_error() {
    let mut d = to_read_recorded("bbb");
    d.step(DetectEvent::Recorded("aaa".to_string()));
    d.step(DetectEvent::Stored(false));
    assert_eq!(outcome(&d), Some(ChangeOutcome::Error));
}

#[test]
fn failed_fetch_ends_detection() {
    let mut d = ChangeDetector::start("main".to_string());
    d.step(DetectEvent::Fetched(false));
    assert_eq!(outcome(&d), Some(ChangeOutcome::Error));
}

#[test]
fn wrong_answer_ends_detection() {
    let mut d = ChangeDetector::start("main".to_string());
    d.step(DetectEvent::Stored(true));
    assert_eq!(outcome(&d), Some(ChangeOutcome::Error));
}

#[test]
fn unresolvable_branch_is_an_error() {
    let mut d = ChangeDetector::start(String::new());
    d.step(DetectEvent::Fetched(true));
    d.step(DetectEvent::Remote { preferred_exists: false, default_branch: None });
    assert_eq!(outcome(&d), Some(ChangeOutcome::Error));
    assert_eq!(d.branch, "");
}

#[test]
fn resolution_is_stable() {
    let main = "main".to_string();
    let a = resolve_branch(&main, true, Some("trunk".to_string()));
    let b = resolve_branch(&main, true, Some("trunk".to_string()));
    assert_eq!(a, Some("main".to_string()));
    assert_eq!(a, b);
}

#[test]
fn missing_branch_falls_back_to_default() {
    let r = resolve_branch(&"feature".to_string(), false, Some("main".to_string()));
    assert_eq!(r, Some("main".to_string()));
    let e = resolve_branch(&String::new(), false, Some("main".to_string()));
    assert_eq!(e, Some("main".to_string()));
    assert_eq!(resolve_branch(&"feature".to_string(), false, None), None);
    assert_eq!(resolve_branch(&String::new(), true, Some(String::new())), None);
}

#[test]
fn head_branch_from_remote_show() {
    let out = "* remote origin\n  Fetch URL: x\n  HEAD branch: main\n  Remote branches:\n";
    assert_eq!(parse_head_branch(out), Some("main".to_string()));
    assert_eq!(parse_head_branch("  HEAD branch: trunk"), Some("trunk".to_string()));
    assert_eq!(parse_head_branch("  HEAD branch:   \n"), None);
    assert_eq!(parse_head_branch("nothing here"), None);
}
