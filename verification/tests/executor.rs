use runn::executor::{execute_pipeline, load_pipeline, PipelineError, PipelineRun};
use runn::manifest::{FailureDoc, PipelineDoc, SecretDoc, SecretEntry, StepDoc};
use runn::secrets::SecretLoadError;

fn step(name: &str, commands: &[&str]) -> StepDoc {
    StepDoc {
        name: name.to_string(),
        commands: commands.iter().map(|c| c.to_string()).collect(),
    }
}

fn abc_pipeline(on_failure: Option<&[&str]>) -> PipelineDoc {
    PipelineDoc {
        kind: "pipeline".to_string(),
        name: "deploy".to_string(),
        webhook_token: None,
        steps: vec![
            step("A", &["exit 0"]),
            step("B", &["exit 3"]),
            step("C", &["exit 0"]),
        ],
        on_failure: on_failure.map(|cmds| FailureDoc {
            commands: cmds.iter().map(|c| c.to_string()).collect(),
        }),
    }
}

/// Drive a run with canned exit statuses; returns the commands the engine
/// named, in order, and the outcome.
fn drive(pipeline: &PipelineDoc, exits: &[i32]) -> (Vec<String>, Result<(), PipelineError>) {
    let mut run = PipelineRun::new(pipeline);
    let mut named: Vec<String> = Vec::new();
    let mut k = 0;
    loop {
        if let Some(outcome) = run.outcome() {
            return (named, outcome);
        }
        let cmd = run.next_command().expect("running pipeline names a command").clone();
        named.push(cmd);
        assert!(k < exits.len(), "ran out of canned exit statuses");
        run.report_exit(exits[k]);
        k += 1;
    }
}

#[test]
fn first_failure_stops_later_steps() {
    let pipeline = abc_pipeline(None);
    let (named, outcome) = drive(&pipeline, &[0, 3]);
    // A's command ran, B's command ran, C's command was never named.
    assert_eq!(named, vec!["exit 0".to_string(), "exit 3".to_string()]);
    assert_eq!(
        outcome,
        Err(PipelineError::StepFailed { step: "B".to_string(), status: 3 })
    );
}

#[test]
fn all_success_runs_every_command() {
    let pipeline = abc_pipeline(None);
    let (named, outcome) = drive(&pipeline, &[0, 0, 0]);
    assert_eq!(named.len(), 3);
    assert_eq!(outcome, Ok(()));
}

#[test]
fn failure_hook_runs_and_outcome_is_unchanged() {
    let pipeline = abc_pipeline(Some(&["touch marker"]));
    let (named, outcome) = drive(&pipeline, &[0, 3, 0]);
    assert_eq!(
        named,
        vec!["exit 0".to_string(), "exit 3".to_string(), "touch marker".to_string()]
    );
    assert_eq!(
        outcome,
        Err(PipelineError::StepFailed { step: "B".to_string(), status: 3 })
    );
}

#[test]
fn failing_hook_does_not_alter_outcome() {
    let pipeline = abc_pipeline(Some(&["touch marker"]));
    // The hook command itself fails with status 7; the outcome still
    // reports B's original failure.
    let (named, outcome) = drive(&pipeline, &[0, 3, 7]);
    assert_eq!(named.last(), Some(&"touch marker".to_string()));
    assert_eq!(
        outcome,
        Err(PipelineError::StepFailed { step: "B".to_string(), status: 3 })
    );
}

#[test]
fn hook_commands_run_in_order_after_failure() {
    let pipeline = abc_pipeline(Some(&["first", "second"]));
    let (named, outcome) = drive(&pipeline, &[0, 3, 1, 2]);
    assert_eq!(
        named,
        vec![
            "exit 0".to_string(),
            "exit 3".to_string(),
            "first".to_string(),
            "second".to_string(),
        ]
    );
    assert_eq!(
        outcome,
        Err(PipelineError::StepFailed { step: "B".to_string(), status: 3 })
    );
}

#[test]
fn empty_pipeline_succeeds_at_once() {
    let pipeline = PipelineDoc {
        kind: "pipeline".to_string(),
        name: "noop".to_string(),
        webhook_token: None,
        steps: vec![],
        on_failure: None,
    };
    let (named, outcome) = drive(&pipeline, &[]);
    assert_eq!(named.len(), 0);
    assert_eq!(outcome, Ok(()));
}

#[test]
fn steps_without_commands_are_skipped() {
    let pipeline = PipelineDoc {
        kind: "pipeline".to_string(),
        name: "sparse".to_string(),
        webhook_token: None,
        steps: vec![step("empty", &[]), step("real", &["exit 5"]), step("tail", &[])],
        on_failure: None,
    };
    let (named, outcome) = drive(&pipeline, &[5]);
    assert_eq!(named, vec!["exit 5".to_string()]);
    assert_eq!(
        outcome,
        Err(PipelineError::StepFailed { step: "real".to_string(), status: 5 })
    );
}

#[test]
fn execute_pipeline_reports_first_failure() {
    let pipeline = abc_pipeline(Some(&["touch marker"]));
    let r = execute_pipeline(&pipeline, None, &vec![0, 3, 0]);
    assert_eq!(r, Err(PipelineError::StepFailed { step: "B".to_string(), status: 3 }));
}

#[test]
fn execute_pipeline_succeeds_when_all_exit_zero() {
    let pipeline = abc_pipeline(None);
    let r = execute_pipeline(&pipeline, None, &vec![0, 0, 0]);
    assert_eq!(r, Ok(()));
}

#[test]
fn execute_pipeline_rejects_wrong_kind_before_running() {
    let mut pipeline = abc_pipeline(None);
    pipeline.kind = "secret".to_string();
    let r = execute_pipeline(&pipeline, None, &vec![0, 0, 0]);
    assert_eq!(r, Err(PipelineError::InvalidKind("secret".to_string())));
}

#[test]
fn execute_pipeline_rejects_bad_secrets_before_running() {
    let pipeline = abc_pipeline(None);
    let secrets = SecretDoc {
        kind: "secret".to_string(),
        name: "credentials".to_string(),
        secrets: vec![
            SecretEntry { name: "a".to_string(), value: "1".to_string() },
            SecretEntry { name: "a".to_string(), value: "2".to_string() },
        ],
    };
    let r = execute_pipeline(&pipeline, Some(&secrets), &vec![0, 0, 0]);
    assert_eq!(
        r,
        Err(PipelineError::Secrets(SecretLoadError::DuplicateName("a".to_string())))
    );
}

#[test]
fn load_pipeline_validates_kind() {
    let pipeline = abc_pipeline(None);
    match load_pipeline(pipeline) {
        Ok(doc) => assert_eq!(doc.name, "deploy"),
        Err(_) => panic!("well-tagged pipeline must load"),
    }
    let mut wrong = abc_pipeline(None);
    wrong.kind = "Pipeline".to_string();
    match load_pipeline(wrong) {
        Err(PipelineError::InvalidKind(k)) => assert_eq!(k, "Pipeline"),
        _ => panic!("wrong kind must not load"),
    }
}
