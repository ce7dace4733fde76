use slop::{is_overloaded, Action, Event, Failure, Passage, Pattern, Replace, Stage};

fn job() -> Replace {
    Replace::new(
        vec!["true".to_string()],
        "msg".to_string(),
        "root".to_string(),
        "fix: %%".to_string(),
        Pattern::new("old").unwrap(),
    )
}

fn found() -> Passage {
    Passage::find(&Pattern::new("old").unwrap(), "root/a.rs".to_string(), "x old y".to_string()).unwrap()
}

fn generating(j: &Replace) -> Stage {
    let (stage, action) = j.step(Stage::Searching, Event::Located(Some(found())));
    match action {
        Action::Complete(prompt) => assert_eq!(prompt, b"fix: old".to_vec()),
        _ => panic!("expected a completion request"),
    }
    stage
}

#[test]
fn run_starts_by_locating() {
    let (stage, action) = Replace::start();
    assert!(matches!(stage, Stage::Searching));
    assert!(matches!(action, Action::Locate));
}

#[test]
fn no_passage_finishes() {
    let (stage, action) = job().step(Stage::Searching, Event::Located(None));
    assert!(matches!(stage, Stage::Done));
    assert!(matches!(action, Action::Finish));
}

#[test]
fn overload_retries_same_prompt() {
    let j = job();
    let mut stage = generating(&j);
    for _ in 0..3 {
        let (next, action) = j.step(
            stage,
            Event::CompletionFailed { http: true, message: "HTTP 529 overloaded".to_string() },
        );
        match action {
            Action::Complete(prompt) => assert_eq!(prompt, b"fix: old".to_vec()),
            _ => panic!("expected a retry"),
        }
        stage = next;
    }
    let (stage, action) = j.step(stage, Event::Generated(b"new".to_vec()));
    assert!(matches!(stage, Stage::Applying { .. }));
    match action {
        Action::Write { path, content } => {
            assert_eq!(path, "root/a.rs");
            assert_eq!(content, b"x new y".to_vec());
        }
        _ => panic!("expected a write"),
    }
}

#[test]
fn other_provider_error_fails() {
    let j = job();
    let stage = generating(&j);
    let (stage, action) = j.step(stage, Event::CompletionFailed { http: true, message: "500".to_string() });
    assert!(matches!(stage, Stage::Failed));
    match action {
        Action::Fail(Failure::Provider(m)) => assert_eq!(m, "500"),
        _ => panic!("expected a provider failure"),
    }
    let stage = generating(&j);
    let (stage, action) = j.step(stage, Event::CompletionFailed { http: false, message: "529".to_string() });
    assert!(matches!(stage, Stage::Failed));
    assert!(matches!(action, Action::Fail(Failure::Provider(_))));
}

#[test]
fn check_failure_stops_without_commit() {
    let j = job();
    let stage = generating(&j);
    let (stage, _) = j.step(stage, Event::Generated(b"new".to_vec()));
    let (stage, action) = j.step(stage, Event::Written);
    assert!(matches!(action, Action::RunCheck));
    let (stage, action) = j.step(stage, Event::CheckExited(false));
    assert!(matches!(stage, Stage::Failed));
    assert!(matches!(action, Action::Fail(Failure::CheckFailed)));
    let (stage, action) = j.step(stage, Event::CommitExited(true));
    assert!(matches!(stage, Stage::Failed));
    assert!(matches!(action, Action::Fail(Failure::OutOfOrder)));
}

#[test]
fn full_cycle_commits_and_searches_again() {
    let j = job();
    let stage = generating(&j);
    let (stage, _) = j.step(stage, Event::Generated(b"new".to_vec()));
    let (stage, _) = j.step(stage, Event::Written);
    let (stage, action) = j.step(stage, Event::CheckExited(true));
    match action {
        Action::Commit { path } => assert_eq!(path, "root/a.rs"),
        _ => panic!("expected a commit"),
    }
    let (stage, action) = j.step(stage, Event::CommitExited(true));
    assert!(matches!(stage, Stage::Searching));
    assert!(matches!(action, Action::Locate));
}

#[test]
fn commit_failure_fails() {
    let j = job();
    let stage = generating(&j);
    let (stage, _) = j.step(stage, Event::Generated(b"new".to_vec()));
    let (stage, _) = j.step(stage, Event::Written);
    let (stage, _) = j.step(stage, Event::CheckExited(true));
    let (stage, action) = j.step(stage, Event::CommitExited(false));
    assert!(matches!(stage, Stage::Failed));
    assert!(matches!(action, Action::Fail(Failure::CommitFailed)));
}

#[test]
fn out_of_order_event_fails() {
    let (stage, action) = job().step(Stage::Searching, Event::Written);
    assert!(matches!(stage, Stage::Failed));
    assert!(matches!(action, Action::Fail(Failure::OutOfOrder)));
}

#[test]
fn overload_detection() {
    assert!(is_overloaded(true, &"529".to_string()));
    assert!(is_overloaded(true, &"status 529: overloaded".to_string()));
    assert!(!is_overloaded(false, &"529".to_string()));
    assert!(!is_overloaded(true, &"52 9".to_string()));
    assert!(!is_overloaded(true, &"".to_string()));
    assert!(!is_overloaded(true, &"é52".to_string()));
}
