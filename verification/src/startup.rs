//! How the server starts on a request: which outside work it does, in what
//! order, and what it does when some of it fails.
//!
//! The caller starts with [`begin`], does the work that an [`Action`] asks for
//! and hands what came of it to [`advance`], until the action is to serve the
//! request or to refuse it.

use crate::protocol::opt_text;
use crate::text::join;
use vstd::prelude::*;

verus! {

/// Outside work that the start waits for.
#[derive(Clone, Copy, Debug, PartialEq, Eq, Structural)]
pub enum Stage {
    /// Load the configuration.
    Config,
    /// Register the handlers and have the schemas of the tools validated.
    Schemas,
    /// Load the signer of continuation tokens and task handles.
    Signer,
}

/// What to do next.
#[derive(Debug)]
pub enum Action {
    /// Do the work of a stage.
    Run(Stage),
    /// Serve the request with the task store and the idempotency store, and with
    /// the signer that was loaded or without one.
    Serve { signer: bool },
    /// Answer the request with a status and a body, and do not serve it.
    Refuse { status: u16, body: String },
}

/// The view of an [`Action`].
#[verifier::ext_equal]
pub enum ActionView {
    Run(Stage),
    Serve { signer: bool },
    Refuse { status: int, body: Seq<char> },
}

impl View for Action {
    type V = ActionView;

    open spec fn view(&self) -> ActionView {
        match *self {
            Action::Run(stage) => ActionView::Run(stage),
            Action::Serve { signer } => ActionView::Serve { signer },
            Action::Refuse { status, body } => ActionView::Refuse {
                status: status as int,
                body: body@,
            },
        }
    }
}

/// A line to log, if there is one, and what to do next.
#[derive(Debug)]
pub struct Step {
    pub log: Option<String>,
    pub action: Action,
}

/// The view of a [`Step`].
#[verifier::ext_equal]
pub struct StepView {
    pub log: Option<Seq<char>>,
    pub action: ActionView,
}

impl View for Step {
    type V = StepView;

    open spec fn view(&self) -> StepView {
        StepView { log: opt_text(self.log), action: self.action@ }
    }
}

/// The HTTP status of a refusal: service unavailable.
pub const SERVICE_UNAVAILABLE: u16 = 503;

/// What a failed piece of work failed with.
pub open spec fn failure(outcome: Result<(), String>) -> Option<Seq<char>> {
    match outcome {
        Ok(_) => None,
        Err(error) => Some(error@),
    }
}

/// What follows once the work of `stage` has succeeded, or has failed with the
/// error that `failure` holds. Without a configuration, or with schemas that
/// are not enforced as advertised, the request is refused. Without a signer it
/// is served all the same.
pub open spec fn step_after(stage: Stage, failure: Option<Seq<char>>) -> StepView {
    match (stage, failure) {
        (Stage::Config, None) => StepView { log: None, action: ActionView::Run(Stage::Schemas) },
        (Stage::Config, Some(error)) => StepView {
            log: Some("config load failed: "@ + error),
            action: ActionView::Refuse {
                status: SERVICE_UNAVAILABLE as int,
                body: "configuration unavailable"@,
            },
        },
        (Stage::Schemas, None) => StepView { log: None, action: ActionView::Run(Stage::Signer) },
        (Stage::Schemas, Some(error)) => StepView {
            log: Some("schema registration error: "@ + error),
            action: ActionView::Refuse {
                status: SERVICE_UNAVAILABLE as int,
                body: "server misconfigured"@,
            },
        },
        (Stage::Signer, None) => StepView {
            log: None,
            action: ActionView::Serve { signer: true },
        },
        (Stage::Signer, Some(error)) => StepView {
            log: Some(
                "warning: no token signer configured ("@ + error + "); MRTR/Tasks disabled"@,
            ),
            action: ActionView::Serve { signer: false },
        },
    }
}

/// Where the start begins.
pub open spec fn first_action() -> ActionView {
    ActionView::Run(Stage::Config)
}

/// The first thing to do on a request.
pub fn begin() -> (action: Action)
    ensures
        action@ == first_action(),
        action@ == ActionView::Run(Stage::Config),
{
    Action::Run(Stage::Config)
}

/// What follows once the work of `stage` has come to `outcome`.
pub fn advance(stage: Stage, outcome: Result<(), String>) -> (step: Step)
    ensures
        step@ == step_after(stage, failure(outcome)),
{
    match (stage, outcome) {
        (Stage::Config, Ok(_)) => Step { log: None, action: Action::Run(Stage::Schemas) },
        (Stage::Config, Err(error)) => Step {
            log: Some("config load failed: ".to_owned().concat(error.as_str())),
            action: Action::Refuse {
                status: SERVICE_UNAVAILABLE,
                body: "configuration unavailable".to_owned(),
            },
        },
        (Stage::Schemas, Ok(_)) => Step { log: None, action: Action::Run(Stage::Signer) },
        (Stage::Schemas, Err(error)) => Step {
            log: Some("schema registration error: ".to_owned().concat(error.as_str())),
            action: Action::Refuse {
                status: SERVICE_UNAVAILABLE,
                body: "server misconfigured".to_owned(),
            },
        },
        (Stage::Signer, Ok(_)) => Step { log: None, action: Action::Serve { signer: true } },
        (Stage::Signer, Err(error)) => Step {
            log: Some(
                join(
                    "warning: no token signer configured (",
                    error.as_str(),
                    "); MRTR/Tasks disabled",
                ),
            ),
            action: Action::Serve { signer: false },
        },
    }
}

/// Where the start ends when each stage fails as `failures` says, after at most
/// `steps` more steps from `action` on.
pub open spec fn end_of(
    action: ActionView,
    failures: spec_fn(Stage) -> Option<Seq<char>>,
    steps: nat,
) -> ActionView
    decreases steps,
{
    match action {
        ActionView::Run(stage) => if steps == 0 {
            action
        } else {
            end_of(step_after(stage, failures(stage)).action, failures, (steps - 1) as nat)
        },
        _ => action,
    }
}

/// The server fails closed: whatever fails and however, the start ends within
/// three steps. The request is served if and only if the configuration was
/// loaded and the schemas are valid, with a signer if and only if one was
/// loaded; in every other case it is refused as unavailable.
pub proof fn law_start_fails_closed(failures: spec_fn(Stage) -> Option<Seq<char>>)
    ensures
        ({
            let end = end_of(first_action(), failures, 3);
            if failures(Stage::Config) is None && failures(Stage::Schemas) is None {
                end == (ActionView::Serve { signer: failures(Stage::Signer) is None })
            } else {
                end matches ActionView::Refuse { status, .. } && status == 503
            }
        }),
{
    reveal_with_fuel(end_of, 4);
}

/// A line is logged for a failure, and for nothing else.
pub proof fn law_failures_are_logged(stage: Stage, failure: Option<Seq<char>>)
    ensures
        step_after(stage, failure).log is Some <==> failure is Some,
{
}

/// What a caller hears of an error is the error that came: nothing where the
/// work succeeded, else the text that it failed with.
pub proof fn law_failures_are_the_errors(outcome: Result<(), String>)
    ensures
        match outcome {
            Ok(_) => failure(outcome) is None,
            Err(error) => failure(outcome) == Some(error@),
        },
{
}

/// Success leads on: from the configuration to the schemas, to the signer, and
/// then to the request, in silence.
pub proof fn law_success_leads_on(stage: Stage)
    ensures
        step_after(stage, None).log is None,
        step_after(stage, None).action == match stage {
            Stage::Config => ActionView::Run(Stage::Schemas),
            Stage::Schemas => ActionView::Run(Stage::Signer),
            Stage::Signer => (ActionView::Serve { signer: true }),
        },
{
}

/// Every failure is logged with its error. Without a configuration or with
/// invalid schemas the request is answered with status 503 and a fixed body
/// that does not hold the error; without a signer it is served without one.
pub proof fn law_failures_are_answered(stage: Stage, error: Seq<char>)
    ensures
        ({
            let step = step_after(stage, Some(error));
            match stage {
                Stage::Config => {
                    &&& step.log == Some("config load failed: "@ + error)
                    &&& step.action == (ActionView::Refuse {
                        status: 503,
                        body: "configuration unavailable"@,
                    })
                },
                Stage::Schemas => {
                    &&& step.log == Some("schema registration error: "@ + error)
                    &&& step.action == (ActionView::Refuse {
                        status: 503,
                        body: "server misconfigured"@,
                    })
                },
                Stage::Signer => {
                    &&& step.log == Some(
                        "warning: no token signer configured ("@ + error
                            + "); MRTR/Tasks disabled"@,
                    )
                    &&& step.action == (ActionView::Serve { signer: false })
                },
            }
        }),
{
}

/// The views of a step and of its action keep everything that they hold.
pub proof fn law_step_views_are_faithful(step: Step)
    ensures
        match step.log {
            Some(line) => step@.log == Some(line@),
            None => step@.log is None,
        },
        match (step.action, step@.action) {
            (Action::Run(stage), ActionView::Run(viewed)) => viewed == stage,
            (Action::Serve { signer }, ActionView::Serve { signer: viewed }) => viewed == signer,
            (
                Action::Refuse { status, body },
                ActionView::Refuse { status: viewed_status, body: viewed_body },
            ) => viewed_status == status && viewed_body == body@,
            _ => false,
        },
        step.action@ == step@.action,
{
}

} // verus!
