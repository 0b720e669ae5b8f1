//! The run as a whole: verify the connection, pass the version gate, then
//! look for an update. Each step is a decision on the reply to one request;
//! the caller sends the requests.

use vstd::prelude::*;
use crate::config::{ConnectionConfig, ConnectionConfigView};
use crate::connection::{
    classify_reply, outcome_of, status_request, status_request_of, version_in_body,
    ConnectionOutcome, ConnectionOutcomeView,
};
use crate::error::{
    problem_of, PreflightError, PreflightErrorView, VersionProblem, VersionProblemView,
};
use crate::gate::VersionGate;
use crate::http::{is_success, HttpReply, HttpReplyView, GetRequest, GetRequestView};
use crate::text::str_view;
use crate::update::{
    check_for_updates, registry_request, registry_request_of, update_check, UpdateComparison,
};
use crate::version::SemanticVersion;

verus! {

/// A target that passed: what it reported and the version this was read as.
#[derive(Clone, Debug, PartialEq, Eq)]
pub struct Verified {
    pub reported: String,
    pub version: SemanticVersion,
}

/// The mathematical value of a [`Verified`].
pub ghost struct VerifiedView {
    pub reported: Seq<char>,
    pub version: SemanticVersion,
}

impl View for Verified {
    type V = VerifiedView;

    open spec fn view(&self) -> VerifiedView {
        VerifiedView { reported: self.reported@, version: self.version }
    }
}

/// The view of the result of a verification.
pub open spec fn verdict_view(verdict: Result<Verified, PreflightError>) -> Result<
    VerifiedView,
    PreflightErrorView,
> {
    match verdict {
        Ok(verified) => Ok(verified@),
        Err(error) => Err(error@),
    }
}

/// What the outcome of signing in means for the run: a failure to connect or
/// to authenticate ends it, and so does a version that the version gate
/// rejects.
pub open spec fn verdict_on(
    target: Seq<char>,
    gate: VersionGate,
    outcome: ConnectionOutcomeView,
) -> Result<VerifiedView, PreflightErrorView> {
    match outcome {
        ConnectionOutcomeView::NetworkFailed(cause) => Err(
            PreflightErrorView::NetworkFailure { target, cause },
        ),
        ConnectionOutcomeView::AuthenticationFailed => Err(
            PreflightErrorView::AuthenticationFailure { target },
        ),
        ConnectionOutcomeView::Authenticated(None) => Err(
            PreflightErrorView::UnsupportedVersion {
                problem: VersionProblemView::NotReported,
                floor: gate.floor,
            },
        ),
        ConnectionOutcomeView::Authenticated(Some(text)) => match gate.decision(Some(text)) {
            Ok(version) => Ok(VerifiedView { reported: text, version }),
            Err(rejection) => Err(
                PreflightErrorView::UnsupportedVersion {
                    problem: problem_of(Some(text), rejection),
                    floor: gate.floor,
                },
            ),
        },
    }
}

/// The result of verifying the connection, from the reply to the status
/// request.
pub open spec fn verification(
    config: ConnectionConfigView,
    gate: VersionGate,
    reply: HttpReplyView,
) -> Result<VerifiedView, PreflightErrorView> {
    verdict_on(config.target(), gate, outcome_of(reply))
}

/// The line that confirms the connection. It names the version that the target
/// reported, or calls it a mystery where it reported none.
pub open spec fn confirmation(reported: Option<Seq<char>>) -> Seq<char> {
    "AdGuard ("@ + (match reported {
        Some(text) => text,
        None => "mystery version"@,
    }) + ") connection successful!\n"@
}

/// Writes the line that confirms the connection.
pub fn confirmation_line(reported: Option<&str>) -> (line: String)
    ensures
        line@ == confirmation(str_view(reported)),
{
    let mut line = String::from_str("AdGuard (");
    match reported {
        Some(text) => {
            line.append(text);
        },
        None => {
            line.append("mystery version");
        },
    }
    line.append(") connection successful!\n");
    line
}

/// Decides what the outcome of signing in means for the run.
pub fn judge_outcome(target: String, gate: &VersionGate, outcome: ConnectionOutcome) -> (verdict:
    Result<Verified, PreflightError>)
    ensures
        verdict_view(verdict) == verdict_on(target@, *gate, outcome@),
{
    match outcome {
        ConnectionOutcome::NetworkFailed(cause) => Err(
            PreflightError::NetworkFailure { target, cause },
        ),
        ConnectionOutcome::AuthenticationFailed => Err(
            PreflightError::AuthenticationFailure { target },
        ),
        ConnectionOutcome::Authenticated(None) => Err(
            PreflightError::UnsupportedVersion {
                problem: VersionProblem::NotReported,
                floor: gate.floor,
            },
        ),
        ConnectionOutcome::Authenticated(Some(text)) => match gate.check(Some(text.as_str())) {
            Ok(version) => Ok(Verified { reported: text, version }),
            Err(rejection) => Err(
                PreflightError::UnsupportedVersion {
                    problem: VersionProblem::new(Some(text), rejection),
                    floor: gate.floor,
                },
            ),
        },
    }
}

/// Verifies the connection from the reply to the status request: the target
/// must have answered, with a success status, and with a version that passes
/// the version gate.
pub fn verify_connection(
    config: &ConnectionConfig,
    gate: &VersionGate,
    reply: HttpReply,
) -> (verdict: Result<Verified, PreflightError>)
    ensures
        verdict_view(verdict) == verification(config@, *gate, reply@),
        verdict is Ok <==> reply@ is Received && is_success(reply@->status) && gate.decision(
            version_in_body(reply@->body),
        ) is Ok,
{
    judge_outcome(config.target(), gate, classify_reply(reply))
}

/// Where a run stands.
#[derive(Clone, Copy, Debug, PartialEq, Eq, Structural)]
pub enum Phase {
    /// The status request is out.
    Verifying,
    /// The target passed, and the registry request is out.
    CheckingUpdates,
    /// Nothing is left to do.
    Done,
}

/// What the caller does next.
#[derive(Clone, Debug, PartialEq, Eq)]
pub enum Step {
    /// The target passed: show the confirmation, then send the request.
    Proceed { confirmation: String, request: GetRequest },
    /// The run failed: show the error and end the process with its exit code.
    Abort(PreflightError),
    /// The run is complete: show the result of the update check and go on.
    Finish(UpdateComparison),
    /// The run had ended before; there is nothing to do.
    Nothing,
}

/// The mathematical value of a [`Step`].
pub ghost enum StepView {
    Proceed { confirmation: Seq<char>, request: GetRequestView },
    Abort(PreflightErrorView),
    Finish(UpdateComparison),
    Nothing,
}

impl View for Step {
    type V = StepView;

    open spec fn view(&self) -> StepView {
        match self {
            Step::Proceed { confirmation, request } => StepView::Proceed {
                confirmation: confirmation@,
                request: request@,
            },
            Step::Abort(error) => StepView::Abort(error@),
            Step::Finish(result) => StepView::Finish(*result),
            Step::Nothing => StepView::Nothing,
        }
    }
}

impl StepView {
    /// The status with which the process ends after this step, where the step
    /// ends the run: 1 after a failure, 0 otherwise, whatever the update check
    /// found.
    pub open spec fn exit_code(self) -> Option<i32> {
        match self {
            StepView::Abort(error) => Some(error.exit_code()),
            StepView::Finish(_) => Some(0i32),
            _ => None,
        }
    }
}

impl Step {
    /// The status with which the process ends after this step, where the step
    /// ends the run.
    pub fn exit_code(&self) -> (code: Option<i32>)
        ensures
            code == self@.exit_code(),
            self@ is Abort ==> code == Some(1i32),
            self@ is Finish ==> code == Some(0i32),
    {
        match self {
            Step::Abort(error) => Some(error.exit_code()),
            Step::Finish(_) => Some(0),
            _ => None,
        }
    }
}

/// What a run works with: the target and its credentials, the version gate,
/// and the name and version of the running program.
#[derive(Clone, Debug, PartialEq, Eq)]
pub struct Preflight {
    pub config: ConnectionConfig,
    pub gate: VersionGate,
    pub package: String,
    pub running: String,
}

/// The mathematical value of a [`Preflight`].
pub ghost struct PreflightView {
    pub config: ConnectionConfigView,
    pub gate: VersionGate,
    pub package: Seq<char>,
    pub running: Seq<char>,
}

impl View for Preflight {
    type V = PreflightView;

    open spec fn view(&self) -> PreflightView {
        PreflightView {
            config: self.config@,
            gate: self.gate,
            package: self.package@,
            running: self.running@,
        }
    }
}

impl PreflightView {
    /// The phase after a reply arrived in `phase`, and what the caller does
    /// next. The registry is asked only once the target has passed, and its
    /// answer ends the run without ever failing it.
    pub open spec fn next(self, phase: Phase, reply: HttpReplyView) -> (Phase, StepView) {
        match phase {
            Phase::Verifying => match verification(self.config, self.gate, reply) {
                Ok(verified) => (
                    Phase::CheckingUpdates,
                    StepView::Proceed {
                        confirmation: confirmation(Some(verified.reported)),
                        request: registry_request_of(self.package),
                    },
                ),
                Err(error) => (Phase::Done, StepView::Abort(error)),
            },
            Phase::CheckingUpdates => (
                Phase::Done,
                StepView::Finish(update_check(self.running, reply)),
            ),
            Phase::Done => (Phase::Done, StepView::Nothing),
        }
    }
}

impl Preflight {
    /// The credentials are short enough to be written in base64.
    pub open spec fn wf(&self) -> bool {
        self.config.wf()
    }

    /// Begins a run: the phase to start in and the first request to send.
    pub fn start(&self) -> (first: (Phase, GetRequest))
        requires
            self.wf(),
        ensures
            first.0 == Phase::Verifying,
            first.1@ == status_request_of(self@.config),
    {
        (Phase::Verifying, status_request(&self.config))
    }

    /// Takes the reply to the request that is out in `phase` and decides how
    /// the run goes on.
    pub fn advance(&self, phase: Phase, reply: HttpReply) -> (next: (Phase, Step))
        ensures
            (next.0, next.1@) == self@.next(phase, reply@),
    {
        match phase {
            Phase::Verifying => match verify_connection(&self.config, &self.gate, reply) {
                Ok(verified) => (
                    Phase::CheckingUpdates,
                    Step::Proceed {
                        confirmation: confirmation_line(Some(verified.reported.as_str())),
                        request: registry_request(self.package.as_str()),
                    },
                ),
                Err(error) => (Phase::Done, Step::Abort(error)),
            },
            Phase::CheckingUpdates => (
                Phase::Done,
                Step::Finish(check_for_updates(self.running.as_str(), reply)),
            ),
            Phase::Done => (Phase::Done, Step::Nothing),
        }
    }
}

/// A run never asks the registry before the target has passed the version
/// gate: the step after the status reply proceeds exactly if the verification
/// succeeded, and ends the run with exit code 1 otherwise.
pub proof fn lemma_registry_only_after_gate(run: PreflightView, reply: HttpReplyView)
    ensures
        run.next(Phase::Verifying, reply).1 is Proceed <==> verification(
            run.config,
            run.gate,
            reply,
        ) is Ok,
        run.next(Phase::Verifying, reply).1 is Proceed ==> reply is Received && is_success(
            reply->status,
        ) && run.gate.decision(version_in_body(reply->body)) is Ok,
        !(run.next(Phase::Verifying, reply).1 is Proceed) ==> run.next(Phase::Verifying, reply).0
            == Phase::Done && run.next(Phase::Verifying, reply).1.exit_code() == Some(1i32),
{
}

/// The update check cannot fail a run: whatever the registry replied, the run
/// ends with exit code 0.
pub proof fn lemma_update_check_never_fails(run: PreflightView, reply: HttpReplyView)
    ensures
        run.next(Phase::CheckingUpdates, reply).0 == Phase::Done,
        run.next(Phase::CheckingUpdates, reply).1.exit_code() == Some(0i32),
{
}

/// Once a run is done, no reply moves it.
pub proof fn lemma_done_is_final(run: PreflightView, reply: HttpReplyView)
    ensures
        run.next(Phase::Done, reply) == (Phase::Done, StepView::Nothing),
{
}

} // verus!
