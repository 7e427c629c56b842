use phantom_ci::workflow::{
    command_line, order_steps, Effect, JobStatus, StepOutcome, WorkflowRun, WorkflowStep,
};

fn entries(pairs: &[(&str, &str)]) -> Vec<(String, String)> {
    pairs.iter().map(|(k, v)| (k.to_string(), v.to_string())).collect()
}

fn orders(steps: &[WorkflowStep]) -> Vec<u64> {
    steps.iter().map(|s| s.order).collect()
}

fn outcome(ok: bool) -> StepOutcome {
    StepOutcome { succeeded: ok, stdout: String::new(), stderr: String::new() }
}

fn run_of(commands: &[&str]) -> WorkflowRun {
    let steps: Vec<WorkflowStep> = commands
        .iter()
        .enumerate()
        .map(|(i, c)| WorkflowStep { order: i as u64, command: c.to_string() })
        .collect();
    WorkflowRun::new("repo".to_string(), "me/repo".to_string(), "main".to_string(), steps)
}

#[test]
fn steps_run_in_ascending_key_order() {
    let a = order_steps(&entries(&[("2", "c"), ("0", "a"), ("x", "skip"), ("1", "b")]));
    let b = order_steps(&entries(&[("1", "b"), ("x", "skip"), ("2", "c"), ("0", "a")]));
    assert_eq!(orders(&a), vec![0, 1, 2]);
    let cmds: Vec<&str> = a.iter().map(|s| s.command.as_str()).collect();
    assert_eq!(cmds, vec!["a", "b", "c"]);
    assert_eq!(orders(&b), vec![0, 1, 2]);
    let cmds_b: Vec<&str> = b.iter().map(|s| s.command.as_str()).collect();
    assert_eq!(cmds_b, cmds);
}

#[test]
fn keys_are_ordered_by_value_not_text() {
    let s = order_steps(&entries(&[("10", "ten"), ("9", "nine")]));
    assert_eq!(orders(&s), vec![9, 10]);
}

#[test]
fn equal_numbers_keep_the_last_entry() {
    let s = order_steps(&entries(&[("1", "first"), ("01", "second")]));
    assert_eq!(s.len(), 1);
    assert_eq!(s[0].command, "second");
}

#[test]
fn fail_fast_skips_later_steps() {
    let mut run = run_of(&["ok", "fail", "ok"]);
    let mut executed = Vec::new();
    let outcomes = [true, false, true];
    while let Some(i) = run.current() {
        executed.push(i);
        run.record(&outcome(outcomes[i]));
    }
    assert_eq!(executed, vec![0, 1]);
    assert_eq!(run.status(), JobStatus::Failed);
}

#[test]
fn all_steps_succeeding_gives_success() {
    let mut run = run_of(&["a", "b"]);
    while run.current().is_some() {
        let e = run.record(&outcome(true));
        assert_eq!(e.len(), 1);
    }
    assert_eq!(run.status(), JobStatus::Success);
}

#[test]
fn empty_workflow_fails() {
    let run = run_of(&[]);
    assert_eq!(run.current(), None);
    assert_eq!(run.status(), JobStatus::Failed);
    let e = run.finish();
    assert_eq!(e.len(), 2);
    match &e[0] {
        Effect::Log(m) => assert_eq!(m, "Workflow failed: me/repo (main)"),
        _ => panic!("summary must be logged"),
    }
    assert!(matches!(&e[1], Effect::Notify(_)));
}

#[test]
fn failing_step_is_logged_and_notified() {
    let mut run = run_of(&["make  test"]);
    let cl = run.next_command().unwrap();
    assert_eq!(cl.program, "make");
    assert_eq!(cl.args, vec!["test".to_string()]);
    let e = run.record(&StepOutcome {
        succeeded: false,
        stdout: "out".to_string(),
        stderr: "boom".to_string(),
    });
    assert_eq!(e.len(), 2);
    let expected = "repo :: make  test :: failed\nstdout: out\nstderr: boom";
    match (&e[0], &e[1]) {
        (Effect::Log(a), Effect::Notify(b)) => {
            assert_eq!(a, expected);
            assert_eq!(b, expected);
        }
        _ => panic!("expected a log entry and a notification"),
    }
}

#[test]
fn step_output_is_truncated_in_logs() {
    let mut run = run_of(&["true"]);
    let e = run.record(&StepOutcome {
        succeeded: true,
        stdout: "y".repeat(4500),
        stderr: String::new(),
    });
    match &e[0] {
        Effect::Log(m) => {
            assert!(m.contains(&format!("stdout: {}...", "y".repeat(4000))));
            assert!(!m.contains(&"y".repeat(4001)));
        }
        _ => panic!("expected a log entry"),
    }
}

#[test]
fn command_line_of_blank_command() {
    let cl = command_line("   ");
    assert_eq!(cl.program, "");
    assert!(cl.args.is_empty());
}

#[test]
fn start_message_names_host() {
    let run = run_of(&["a"]);
    assert_eq!(
        run.start_message("box"),
        "Starting Workflow: me/repo\nTarget Branch: main\nHost: box"
    );
    assert_eq!(JobStatus::Running.label(), "running");
}
