use phantom_ci::cycle::{Phase, RepoCycle};
use phantom_ci::detect::{ChangeOutcome, DetectAction, DetectEvent};
use phantom_ci::repo::Repo;
use phantom_ci::sync::{SyncAction, SyncEvent};
use phantom_ci::workflow::{Effect, JobStatus, StepOutcome};

fn repo(branch: &str) -> Repo {
    Repo::new(
        "proj".to_string(),
        "git@host:me/proj".to_string(),
        "/tmp/proj".to_string(),
        None,
        branch.to_string(),
        false,
    )
}

fn notifications(effects: &[Effect]) -> usize {
    effects.iter().filter(|e| matches!(e, Effect::Notify(_))).count()
}

fn detect_change(c: &mut RepoCycle, recorded: &str, tip: &str) -> Vec<Effect> {
    let mut all = Vec::new();
    all.extend(c.on_detect(DetectEvent::Fetched(true)));
    all.extend(c.on_detect(DetectEvent::Remote {
        preferred_exists: true,
        default_branch: Some("main".to_string()),
    }));
    all.extend(c.on_detect(DetectEvent::Tip(Some(tip.to_string()))));
    all.extend(c.on_detect(DetectEvent::Recorded(recorded.to_string())));
    match &c.phase {
        Phase::Detecting(d) => {
            assert!(matches!(&d.pending, DetectAction::Record(b, s) if b == "main" && s == tip))
        }
        _ => panic!("the new commit must be recorded first"),
    }
    all.extend(c.on_detect(DetectEvent::Stored(true)));
    all
}

fn sync_ok(c: &mut RepoCycle) -> Vec<Effect> {
    let mut all = Vec::new();
    all.extend(c.on_sync(SyncEvent::Done(true)));
    all.extend(c.on_sync(SyncEvent::RemoteUrl(Some("git@host:me/proj".to_string()))));
    all.extend(c.on_sync(SyncEvent::Done(true)));
    all.extend(c.on_sync(SyncEvent::Done(true)));
    all
}

#[test]
fn prepare_clones_resolves_and_records_baseline() {
    let mut c = RepoCycle::prepare(repo(""), false);
    assert!(matches!(c.phase, Phase::Cloning));
    let mut all = c.on_cloned(true);
    all.extend(c.on_detect(DetectEvent::Fetched(true)));
    match &c.phase {
        Phase::Detecting(d) => assert!(matches!(&d.pending, DetectAction::QueryRemote(p) if p.is_empty())),
        _ => panic!("expected detection"),
    }
    all.extend(c.on_detect(DetectEvent::Remote {
        preferred_exists: false,
        default_branch: Some("main".to_string()),
    }));
    all.extend(c.on_detect(DetectEvent::Tip(Some("s1".to_string()))));
    all.extend(c.on_detect(DetectEvent::Recorded(String::new())));
    all.extend(c.on_detect(DetectEvent::Stored(true)));
    assert!(matches!(c.phase, Phase::Done));
    assert_eq!(c.detected, Some(ChangeOutcome::FirstSeen));
    assert_eq!(c.repo.target_branch, "main");
    assert_eq!(c.repo.last_sha, Some("s1".to_string()));
    assert!(!c.repo.triggered);
    assert!(!all.iter().any(|e| matches!(e, Effect::SetStatus(JobStatus::Running))));
}

#[test]
fn change_runs_workflow_until_first_failure() {
    let mut c = RepoCycle::start(repo("main"), true);
    let mut all = detect_change(&mut c, "aaa", "bbb");
    assert_eq!(c.detected, Some(ChangeOutcome::Changed));
    assert_eq!(c.repo.last_sha, Some("bbb".to_string()));
    assert!(c.repo.triggered);
    match &c.phase {
        Phase::Syncing(s) => assert!(matches!(s.pending, SyncAction::Fetch)),
        _ => panic!("expected sync"),
    }
    all.extend(sync_ok(&mut c));
    assert!(matches!(c.phase, Phase::LoadingWorkflow));
    assert!(!c.repo.triggered);
    let defs = vec![
        ("0".to_string(), "true".to_string()),
        ("1".to_string(), "false".to_string()),
    ];
    all.extend(c.on_workflow(&defs, "box"));
    let mut ran = Vec::new();
    loop {
        let cl = match &c.phase {
            Phase::Running(r) => r.next_command().unwrap(),
            _ => break,
        };
        let ok = cl.program == "true";
        ran.push(cl.program.clone());
        all.extend(c.on_step(&StepOutcome { succeeded: ok, stdout: String::new(), stderr: String::new() }));
    }
    assert_eq!(ran, vec!["true".to_string(), "false".to_string()]);
    assert_eq!(notifications(&all), 2);
    let statuses: Vec<JobStatus> = all
        .iter()
        .filter_map(|e| match e {
            Effect::SetStatus(s) => Some(*s),
            _ => None,
        })
        .collect();
    assert_eq!(statuses, vec![JobStatus::Running, JobStatus::Failed]);
    let step_logs = all
        .iter()
        .filter(|e| matches!(e, Effect::Log(m) if m.starts_with("proj :: true :: ok")))
        .count();
    assert_eq!(step_logs, 1);
}

#[test]
fn hard_reset_rescues_failed_fast_forward() {
    let mut c = RepoCycle::start(repo("main"), true);
    detect_change(&mut c, "aaa", "bbb");
    c.on_sync(SyncEvent::Done(true));
    c.on_sync(SyncEvent::RemoteUrl(Some("other-url".to_string())));
    match &c.phase {
        Phase::Syncing(s) => assert!(matches!(&s.pending, SyncAction::SetRemoteUrl(u) if u == "git@host:me/proj")),
        _ => panic!("expected sync"),
    }
    c.on_sync(SyncEvent::Done(true));
    c.on_sync(SyncEvent::Done(true));
    c.on_sync(SyncEvent::Done(false));
    match &c.phase {
        Phase::Syncing(s) => assert!(matches!(&s.pending, SyncAction::HardReset(b) if b == "main")),
        _ => panic!("expected the hard reset"),
    }
    c.on_sync(SyncEvent::Done(true));
    assert!(matches!(c.phase, Phase::LoadingWorkflow));
    let defs = vec![("0".to_string(), "true".to_string())];
    c.on_workflow(&defs, "box");
    let e = c.on_step(&StepOutcome { succeeded: true, stdout: String::new(), stderr: String::new() });
    assert!(matches!(c.phase, Phase::Done));
    assert!(e.iter().any(|x| matches!(x, Effect::SetStatus(JobStatus::Success))));
}

#[test]
fn failed_sync_skips_workflow_and_keeps_commit() {
    let mut c = RepoCycle::start(repo("main"), true);
    detect_change(&mut c, "aaa", "bbb");
    c.on_sync(SyncEvent::Done(true));
    c.on_sync(SyncEvent::RemoteUrl(None));
    c.on_sync(SyncEvent::Done(true));
    c.on_sync(SyncEvent::Done(true));
    c.on_sync(SyncEvent::Done(false));
    let e = c.on_sync(SyncEvent::Done(false));
    assert!(matches!(c.phase, Phase::Done));
    assert!(!c.repo.triggered);
    assert_eq!(c.repo.last_sha, Some("bbb".to_string()));
    assert!(matches!(&e[0], Effect::Log(m) if m == "Sync failed: git@host:me/proj at git reset --hard"));
}

#[test]
fn no_change_ends_the_turn() {
    let mut c = RepoCycle::start(repo("main"), true);
    c.on_detect(DetectEvent::Fetched(true));
    c.on_detect(DetectEvent::Remote { preferred_exists: true, default_branch: None });
    c.on_detect(DetectEvent::Tip(Some("aaa".to_string())));
    let e = c.on_detect(DetectEvent::Recorded("aaa".to_string()));
    assert!(e.is_empty());
    assert!(matches!(c.phase, Phase::Done));
    assert_eq!(c.detected, Some(ChangeOutcome::NoChange));
    assert_eq!(c.repo.last_sha, Some("aaa".to_string()));
}

#[test]
fn empty_definition_fails_the_job() {
    let mut c = RepoCycle::start(repo("main"), true);
    detect_change(&mut c, "aaa", "bbb");
    sync_ok(&mut c);
    let e = c.on_workflow(&vec![("x".to_string(), "true".to_string())], "box");
    assert!(matches!(c.phase, Phase::Done));
    assert_eq!(e.len(), 6);
    assert!(matches!(&e[0], Effect::Warn(m) if m.ends_with(": x")));
    assert!(matches!(e[4], Effect::SetStatus(JobStatus::Failed)));
}

#[test]
fn non_numeric_key_is_warned_and_skipped() {
    let mut c = RepoCycle::start(repo("main"), true);
    detect_change(&mut c, "aaa", "bbb");
    sync_ok(&mut c);
    let defs = vec![
        ("x".to_string(), "skip".to_string()),
        ("1".to_string(), "second".to_string()),
        ("0".to_string(), "first".to_string()),
    ];
    let mut all = c.on_workflow(&defs, "box");
    assert!(matches!(&all[0], Effect::Warn(m) if m == "Ignoring workflow entry whose key is not a number: x"));
    let mut ran = Vec::new();
    loop {
        let cl = match &c.phase {
            Phase::Running(r) => r.next_command().unwrap(),
            _ => break,
        };
        ran.push(cl.program.clone());
        all.extend(c.on_step(&StepOutcome { succeeded: true, stdout: String::new(), stderr: String::new() }));
    }
    assert_eq!(ran, vec!["first".to_string(), "second".to_string()]);
    assert!(all.iter().any(|e| matches!(e, Effect::SetStatus(JobStatus::Success))));
    assert_eq!(notifications(&all), 1);
}
