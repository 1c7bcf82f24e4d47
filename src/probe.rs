use vstd::prelude::*;

use crate::method::AuthMethod;
use crate::outcome::{classification, classify, ProbeOutcome};

verus! {

/// Seconds of inactivity after which the transport gives up on the server.
pub const INACTIVITY_TIMEOUT_SECS: u64 = 25;

/// The server's first answer to a keyboard-interactive attempt that named no
/// submethods.
pub enum AuthResponse {
    /// Access granted without any credential.
    Success,
    /// The attempt was declined; these methods may still be tried.
    Failure { remaining_methods: Vec<AuthMethod> },
    /// The server sent prompts, starting a challenge exchange.
    InfoRequest,
}

/// What a server's answer means for the run.
pub open spec fn response_outcome(resp: AuthResponse) -> ProbeOutcome {
    match resp {
        AuthResponse::Success => ProbeOutcome::UnexpectedGrant,
        AuthResponse::Failure { remaining_methods } => classification(remaining_methods@),
        AuthResponse::InfoRequest => ProbeOutcome::ChallengeAccepted,
    }
}

/// Turns the server's answer into the run's outcome. A grant or a challenge
/// ends the run at once; a refusal is classified by its remaining methods.
pub fn interpret_response(resp: &AuthResponse) -> (r: ProbeOutcome)
    ensures
        r == response_outcome(*resp),
{
    match resp {
        AuthResponse::Success => ProbeOutcome::UnexpectedGrant,
        AuthResponse::Failure { remaining_methods } => classify(remaining_methods),
        AuthResponse::InfoRequest => ProbeOutcome::ChallengeAccepted,
    }
}

/// Outcomes that stop the probe abnormally.
pub open spec fn is_fatal(o: ProbeOutcome) -> bool {
    ||| o is UnexpectedGrant
    ||| o is ChallengeAccepted
    ||| o is ConnectionError
}

/// The lifecycle of one probe run.
#[derive(Clone, Copy, Debug, PartialEq, Eq, Structural)]
pub enum ProbeStage {
    Idle,
    Connecting,
    AuthAttemptSent,
    Finished(ProbeOutcome),
}

/// What the caller observed after performing the last action.
pub enum ProbeEvent {
    /// The caller asks the run to begin.
    Start,
    /// The transport session is established.
    TransportUp,
    /// The transport could not be established, broke, or timed out.
    TransportFailed,
    /// The server answered the keyboard-interactive attempt.
    AuthReply(AuthResponse),
}

/// What the caller must do next.
pub enum ProbeAction {
    /// Open the transport, with an inactivity timeout of
    /// `INACTIVITY_TIMEOUT_SECS` and the restricted key-exchange list.
    OpenTransport,
    /// Send one keyboard-interactive request for `user`, naming no submethods.
    StartKeyboardInteractive { user: String },
    /// Stop and report this outcome; nothing more is sent to the server.
    Report(ProbeOutcome),
}

/// Whether `event` can occur in `stage`.
pub open spec fn expects(stage: ProbeStage, event: ProbeEvent) -> bool {
    match stage {
        ProbeStage::Idle => event is Start,
        ProbeStage::Connecting => event is TransportUp || event is TransportFailed,
        ProbeStage::AuthAttemptSent => event is AuthReply || event is TransportFailed,
        ProbeStage::Finished(_) => false,
    }
}

/// The stage that follows `stage` on `event`.
pub open spec fn next_stage(stage: ProbeStage, event: ProbeEvent) -> ProbeStage {
    match event {
        ProbeEvent::Start => ProbeStage::Connecting,
        ProbeEvent::TransportUp => ProbeStage::AuthAttemptSent,
        ProbeEvent::TransportFailed => ProbeStage::Finished(ProbeOutcome::ConnectionError),
        ProbeEvent::AuthReply(resp) => ProbeStage::Finished(response_outcome(resp)),
    }
}

/// Whether `action` is the one owed for `event` in a run for `user`.
pub open spec fn action_for(user: Seq<char>, event: ProbeEvent, action: ProbeAction) -> bool {
    match event {
        ProbeEvent::Start => action is OpenTransport,
        ProbeEvent::TransportUp => action matches ProbeAction::StartKeyboardInteractive { user: u }
            && u@ == user,
        ProbeEvent::TransportFailed => action matches ProbeAction::Report(o) && o
            == ProbeOutcome::ConnectionError,
        ProbeEvent::AuthReply(resp) => action matches ProbeAction::Report(o) && o
            == response_outcome(resp),
    }
}

/// The abstract state of a run: the candidate user and the stage reached.
pub struct ProbeView {
    pub user: Seq<char>,
    pub stage: ProbeStage,
}

/// One probe run against one endpoint, for one candidate user. The caller
/// performs each returned action and feeds back what it observed.
pub struct Probe {
    user: String,
    stage: ProbeStage,
}

impl View for Probe {
    type V = ProbeView;

    closed spec fn view(&self) -> ProbeView {
        ProbeView { user: self.user@, stage: self.stage }
    }
}

impl Probe {
    /// A run that has not started, for `user`.
    pub fn new(user: String) -> (r: Probe)
        ensures
            r@.user == user@,
            r@.stage == ProbeStage::Idle,
    {
        Probe { user, stage: ProbeStage::Idle }
    }

    /// The stage the run has reached.
    pub fn stage(&self) -> (r: ProbeStage)
        ensures
            r == self@.stage,
    {
        self.stage
    }

    /// The run's outcome, once it is finished.
    pub fn outcome(&self) -> (r: Option<ProbeOutcome>)
        ensures
            r == (match self@.stage {
                ProbeStage::Finished(o) => Some(o),
                _ => None,
            }),
    {
        match self.stage {
            ProbeStage::Finished(o) => Some(o),
            _ => None,
        }
    }

    /// Whether the run can take `event` now.
    pub fn expects(&self, event: &ProbeEvent) -> (r: bool)
        ensures
            r == expects(self@.stage, *event),
    {
        match self.stage {
            ProbeStage::Idle => matches!(event, ProbeEvent::Start),
            ProbeStage::Connecting => matches!(event, ProbeEvent::TransportUp)
                || matches!(event, ProbeEvent::TransportFailed),
            ProbeStage::AuthAttemptSent => matches!(event, ProbeEvent::AuthReply(_))
                || matches!(event, ProbeEvent::TransportFailed),
            ProbeStage::Finished(_) => false,
        }
    }

    /// Takes one event and says what to do next.
    pub fn step(&mut self, event: ProbeEvent) -> (action: ProbeAction)
        requires
            expects(old(self)@.stage, event),
        ensures
            final(self)@.user == old(self)@.user,
            final(self)@.stage == next_stage(old(self)@.stage, event),
            action_for(old(self)@.user, event, action),
    {
        match event {
            ProbeEvent::Start => {
                self.stage = ProbeStage::Connecting;
                ProbeAction::OpenTransport
            },
            ProbeEvent::TransportUp => {
                self.stage = ProbeStage::AuthAttemptSent;
                ProbeAction::StartKeyboardInteractive { user: self.user.clone() }
            },
            ProbeEvent::TransportFailed => {
                self.stage = ProbeStage::Finished(ProbeOutcome::ConnectionError);
                ProbeAction::Report(ProbeOutcome::ConnectionError)
            },
            ProbeEvent::AuthReply(resp) => {
                let o = interpret_response(&resp);
                self.stage = ProbeStage::Finished(o);
                ProbeAction::Report(o)
            },
        }
    }
}

/// An unconditional grant ends the run fatally whatever user was asked for:
/// the run finishes with `UnexpectedGrant`, the only action owed is to report
/// it, and no further event is taken.
pub proof fn lemma_grant_is_fatal(v: ProbeView, action: ProbeAction)
    requires
        v.stage == ProbeStage::AuthAttemptSent,
        action_for(v.user, ProbeEvent::AuthReply(AuthResponse::Success), action),
    ensures
        expects(v.stage, ProbeEvent::AuthReply(AuthResponse::Success)),
        next_stage(v.stage, ProbeEvent::AuthReply(AuthResponse::Success)) == ProbeStage::Finished(
            ProbeOutcome::UnexpectedGrant,
        ),
        action matches ProbeAction::Report(o) && o == ProbeOutcome::UnexpectedGrant && is_fatal(o),
        forall|e: ProbeEvent|
            !expects(next_stage(v.stage, ProbeEvent::AuthReply(AuthResponse::Success)), e),
{
}

/// A challenge ends the run fatally with `ChallengeAccepted`: the only action
/// owed is to report it, and the finished run takes no further event, so no
/// answer to the challenge is ever sent.
pub proof fn lemma_challenge_is_fatal_and_unanswered(v: ProbeView, action: ProbeAction)
    requires
        v.stage == ProbeStage::AuthAttemptSent,
        action_for(v.user, ProbeEvent::AuthReply(AuthResponse::InfoRequest), action),
    ensures
        expects(v.stage, ProbeEvent::AuthReply(AuthResponse::InfoRequest)),
        next_stage(v.stage, ProbeEvent::AuthReply(AuthResponse::InfoRequest))
            == ProbeStage::Finished(ProbeOutcome::ChallengeAccepted),
        action matches ProbeAction::Report(o) && o == ProbeOutcome::ChallengeAccepted && is_fatal(
            o,
        ),
        forall|e: ProbeEvent|
            !expects(next_stage(v.stage, ProbeEvent::AuthReply(AuthResponse::InfoRequest)), e),
{
}

/// Once a run reports an outcome it is finished with that outcome and takes no
/// further event: every run ends in exactly one classification.
pub proof fn lemma_report_is_terminal(v: ProbeView, event: ProbeEvent, action: ProbeAction)
    requires
        expects(v.stage, event),
        action_for(v.user, event, action),
        action is Report,
    ensures
        next_stage(v.stage, event) == ProbeStage::Finished(action->Report_0),
        forall|e: ProbeEvent| !expects(next_stage(v.stage, event), e),
{
}

} // verus!
