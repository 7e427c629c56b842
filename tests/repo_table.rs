use phantom_ci::repo::{default_config_path, repo_work_dir, Platform, Repo, Repos};
use phantom_ci::service::{default_systemd_service_dir, default_systemd_service_file};
use phantom_ci::state::SerializedState;
use phantom_ci::state::AppState;

fn named(name: &str) -> Repo {
    Repo::new(name.to_string(), format!("me/{}", name), String::new(), None, "main".to_string(), false)
}

#[test]
fn work_dir_depends_on_account_and_system() {
    let entry = Repos { path: "git@github.com:me/sys-compare".to_string(), target_branch: None };
    assert_eq!(repo_work_dir(&entry, "root", Platform::Linux), "/root/.cache/phantom_ci/sys-compare");
    assert_eq!(repo_work_dir(&entry, "ann", Platform::Linux), "/home/ann/.cache/phantom_ci/sys-compare");
    assert_eq!(
        repo_work_dir(&entry, "ann", Platform::MacOs),
        "/Users/ann/Library/Caches/com.helloimalemur.phantom_ci/sys-compare"
    );
    assert_eq!(repo_work_dir(&entry, "ann", Platform::Other), "/tmp/phantom_ci/sys-compare");
    assert_eq!(default_config_path("ann", Platform::Linux), Some("/home/ann/.config/phantom_ci/".to_string()));
    assert_eq!(default_config_path("root", Platform::Other), None);
}

#[test]
fn registry_entry_without_branch_prefers_remote_default() {
    let entry = Repos { path: "me/x".to_string(), target_branch: None };
    let r = Repo::from_registry("x".to_string(), &entry, "/w".to_string());
    assert_eq!(r.target_branch, "");
    assert_eq!(r.preferred_branch, "");
    let entry1 = Repos { path: "me/x".to_string(), target_branch: Some("dev".to_string()) };
    assert_eq!(Repo::from_registry("x".to_string(), &entry1, "/w".to_string()).preferred_branch, "dev");
    let entry2 = Repos { path: "me/x".to_string(), target_branch: Some(String::new()) };
    assert_eq!(Repo::from_registry("x".to_string(), &entry2, "/w".to_string()).preferred_branch, "");
    let d = Repo::default();
    assert_eq!(d.target_branch, "master");
}

#[test]
fn config_entry_text() {
    let r = named("proj");
    assert_eq!(r.config_entry(), "[proj]\npath = \"me/proj\"\ntarget_branch = \"main\"\n\n");
}

#[test]
fn take_trigger_consumes_it() {
    let mut r = named("a");
    r.triggered = true;
    assert!(r.take_trigger());
    assert!(!r.triggered);
    assert!(!r.take_trigger());
}

#[test]
fn table_keeps_first_entry_per_key() {
    let mut s = AppState::new();
    assert_eq!(s.scm_internal, 15);
    s.add_repo_to_state("a".to_string(), named("a"));
    let mut other = named("a");
    other.path = "elsewhere".to_string();
    s.add_repo("a".to_string(), other);
    s.add_repo_to_state("b".to_string(), named("b"));
    assert_eq!(s.repos.len(), 2);
    assert_eq!(s.repos[0].1.path, "me/a");
    let snap = s.get_serialized_state();
    let mut t = AppState::new();
    t.set_deserialize_state(snap);
    assert_eq!(t.repos.len(), 2);
    assert_eq!(t.repos[1].0, "b");
}

#[test]
fn stale_repos_and_removal() {
    let mut s = AppState::new();
    s.add_repo_to_state("a".to_string(), named("a"));
    s.add_repo_to_state("b".to_string(), named("b"));
    s.add_repo_to_state("c".to_string(), named("c"));
    let stale = s.stale_repos(&vec!["b".to_string()]);
    assert_eq!(stale, vec!["a".to_string(), "c".to_string()]);
    for k in &stale {
        s.remove_repo(k);
    }
    assert_eq!(s.repos.len(), 1);
    assert_eq!(s.repos[0].0, "b");
}

#[test]
fn restore_keeps_first_duplicate() {
    let mut other = named("a");
    other.path = "second".to_string();
    let snap = SerializedState {
        repos: vec![
            ("a".to_string(), named("a")),
            ("b".to_string(), named("b")),
            ("a".to_string(), other),
        ],
    };
    let mut t = AppState::new();
    t.set_deserialize_state(snap);
    assert_eq!(t.repos.len(), 2);
    assert_eq!(t.repos[0].1.path, "me/a");
    assert_eq!(t.repos[1].0, "b");
}

#[test]
fn systemd_unit_location_and_text() {
    assert_eq!(default_systemd_service_dir("phantom_ci"), "/usr/lib/systemd/system/phantom_ci.service");
    assert!(default_systemd_service_file().contains("ExecStart=/root/.cargo/bin/phantom_ci"));
}
