use example_server::startup::{advance, begin, Action, Stage, Step};

fn failed(stage: Stage) -> Step {
    advance(stage, Err("boom".to_string()))
}

/// Runs the start with the given stages failing: the log and the last action.
fn start(failing: &[Stage]) -> (Vec<String>, Action) {
    let mut log = Vec::new();
    let mut action = begin();
    while let Action::Run(stage) = action {
        let outcome = if failing.contains(&stage) { Err("boom".to_string()) } else { Ok(()) };
        let step = advance(stage, outcome);
        log.extend(step.log);
        action = step.action;
    }
    (log, action)
}

#[test]
fn starts_with_the_configuration() {
    assert!(matches!(begin(), Action::Run(Stage::Config)));
}

#[test]
fn success_goes_on_without_a_log_line() {
    let step = advance(Stage::Config, Ok(()));
    assert_eq!(step.log, None);
    assert!(matches!(step.action, Action::Run(Stage::Schemas)));
    let step = advance(Stage::Schemas, Ok(()));
    assert_eq!(step.log, None);
    assert!(matches!(step.action, Action::Run(Stage::Signer)));
    let step = advance(Stage::Signer, Ok(()));
    assert_eq!(step.log, None);
    assert!(matches!(step.action, Action::Serve { signer: true }));
}

#[test]
fn a_missing_configuration_is_refused() {
    let step = failed(Stage::Config);
    assert_eq!(step.log.as_deref(), Some("config load failed: boom"));
    match step.action {
        Action::Refuse { status, body } => {
            assert_eq!(status, 503);
            assert_eq!(body, "configuration unavailable");
        }
        _ => panic!("not refused"),
    }
}

#[test]
fn unenforced_schemas_are_refused() {
    let step = failed(Stage::Schemas);
    assert_eq!(step.log.as_deref(), Some("schema registration error: boom"));
    match step.action {
        Action::Refuse { status, body } => {
            assert_eq!(status, 503);
            assert_eq!(body, "server misconfigured");
        }
        _ => panic!("not refused"),
    }
}

#[test]
fn a_missing_signer_is_only_a_warning() {
    let step = failed(Stage::Signer);
    assert_eq!(
        step.log.as_deref(),
        Some("warning: no token signer configured (boom); MRTR/Tasks disabled")
    );
    assert!(matches!(step.action, Action::Serve { signer: false }));
}

#[test]
fn the_start_fails_closed() {
    assert!(matches!(start(&[]).1, Action::Serve { signer: true }));
    assert!(matches!(start(&[Stage::Signer]).1, Action::Serve { signer: false }));
    for failing in [
        vec![Stage::Config],
        vec![Stage::Schemas],
        vec![Stage::Config, Stage::Schemas],
        vec![Stage::Config, Stage::Signer],
        vec![Stage::Schemas, Stage::Signer],
        vec![Stage::Config, Stage::Schemas, Stage::Signer],
    ] {
        let (log, action) = start(&failing);
        assert!(matches!(action, Action::Refuse { status: 503, .. }));
        assert_eq!(log.len(), 1);
    }
}
