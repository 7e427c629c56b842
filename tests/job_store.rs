use phantom_ci::job::{Job, JobLog};

fn job(repo: &str, branch: &str, status: &str, sha: &str) -> Job {
    let mut j = Job::new_for(repo.to_string(), branch.to_string(), sha.to_string());
    j.status = status.to_string();
    j
}

#[test]
fn test_read_by_status() {
    let all = vec![
        job("a", "main", "running", "1"),
        job("b", "main", "success", "2"),
        job("c", "dev", "running", "3"),
    ];
    let jobs = Job::get_jobs_by_status(&all, "running".to_string());
    println!("{:?}", jobs);
    assert_eq!(jobs.len(), 2);
    for job in jobs {
        assert_eq!(job.status, "running");
    }
}

#[test]
fn jobs_by_repo_select_the_branch() {
    let all = vec![
        job("a", "main", "", "1"),
        job("a", "dev", "", "2"),
        job("a", "main", "", "3"),
    ];
    let jobs = Job::get_jobs_by_repo(&all, "a".to_string(), "main".to_string());
    let shas: Vec<String> = jobs.iter().map(|j| j.sha.clone()).collect();
    assert_eq!(shas, vec!["1".to_string(), "3".to_string()]);
}

#[test]
fn check_exists_needs_repo_and_branch() {
    let all = vec![job("a", "main", "", "1")];
    assert!(Job::check_exists(&all, "a".to_string(), "main".to_string()));
    assert!(!Job::check_exists(&all, "a".to_string(), "dev".to_string()));
    assert!(!Job::check_exists(&all, "b".to_string(), "main".to_string()));
    assert!(!Job::check_exists(&Vec::new(), "a".to_string(), "main".to_string()));
}

#[test]
fn recorded_sha_is_the_last_row() {
    let all = vec![
        job("a", "main", "", "aaa"),
        job("a", "dev", "", "ddd"),
        job("a", "main", "", "bbb"),
    ];
    assert_eq!(Job::recorded_sha(&all, "a".to_string(), "main".to_string()), "bbb");
    assert_eq!(Job::recorded_sha(&all, "a".to_string(), "dev".to_string()), "ddd");
    assert_eq!(Job::recorded_sha(&all, "z".to_string(), "main".to_string()), "");
}

#[test]
fn logs_by_repo_keep_order() {
    let logs = vec![
        JobLog { id: 1, repo: "a".to_string(), log_message: "one".to_string(), logged_at: String::new() },
        JobLog { id: 2, repo: "b".to_string(), log_message: "two".to_string(), logged_at: String::new() },
        JobLog { id: 3, repo: "a".to_string(), log_message: "three".to_string(), logged_at: String::new() },
    ];
    let r = JobLog::get_logs_by_repo(&logs, "a".to_string());
    let msgs: Vec<&str> = r.iter().map(|l| l.log_message.as_str()).collect();
    assert_eq!(msgs, vec!["one", "three"]);
}
