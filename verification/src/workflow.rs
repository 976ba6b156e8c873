//! The confirmation workflow: wait for the leader slot, fetch a recency
//! token, build the bundle, submit it, and await its result.
//!
//! The workflow does no I/O. The caller reports each thing that happened
//! as an event, together with its clock in milliseconds, and carries out
//! the action that comes back.

use vstd::prelude::*;
use crate::bundle::{
    Bundle, BundleError, BundleIdentity, BundleView, build_bundle, built, bundle_result_view,
};
use crate::correlator::{
    ActionView, BundleResultEvent, Correlator, CorrelatorAction, CorrelatorEvent, CorrelatorView,
    EventView, PendingTransaction, PendingTxNotification, ResultEventView, pending_views,
};
use crate::encoding::MAX_WIRE_LIST;
use crate::instruction::Address;
use crate::ledger::{PayerKeys, RecencyToken};
use crate::slot::{LeaderGate, SlotInfo, SlotInfoView};
use crate::status::{EndView, FinalStatus, FinalStatusView, WorkflowError, end_view};
use crate::submitter::{
    ChannelFailure, Submission, SubmissionView, channel_error, concluded, submission_of,
};

verus! {

/// What one run is asked to do, and the timing it keeps.
#[derive(Clone, Copy)]
pub struct WorkflowConfig {
    /// The keypair that pays for and signs every transaction.
    pub payer_keys: PayerKeys,
    /// The account that the payments go to.
    pub recipient: Address,
    /// The relay's tip account.
    pub tip_account: Address,
    /// The tip of each transaction, in lamports.
    pub tip_lamports: u64,
    /// The number of payments in each transaction.
    pub instructions_per_tx: usize,
    /// The number of transactions in the bundle.
    pub tx_count: usize,
    /// The largest distance to the leader slot, in slots, at which the
    /// bundle is submitted.
    pub proximity_threshold: u64,
    /// The pause between two polls of the leader schedule, in milliseconds.
    pub leader_poll_interval_ms: u64,
    /// The longest silence of the result wait before a liveness probe, in
    /// milliseconds.
    pub poll_timeout_ms: u64,
    /// The overall budget of the result wait, in milliseconds.
    pub deadline_ms: u64,
}

/// What the caller reports.
#[derive(Debug)]
pub enum WorkflowEvent {
    /// The run begins.
    Started,
    /// The relay answered a leader probe.
    LeaderProbed(SlotInfo),
    /// A leader probe failed.
    LeaderProbeFailed,
    /// The pause between two leader polls is over.
    SleepElapsed,
    /// The ledger gave a fresh recency token.
    RecencyToken(RecencyToken),
    /// The ledger could not be asked for a recency token.
    RecencyTokenFailed,
    /// The relay acknowledged the bundle.
    SubmitAcknowledged,
    /// The bundle could not be sent.
    SubmitFailed(ChannelFailure),
    /// The bundle-result stream delivered a notification.
    BundleResult(BundleResultEvent),
    /// The pending-transaction stream delivered a batch.
    PendingTransactions(PendingTxNotification),
    /// The poll timer of the result wait ran out.
    PollTimeout,
    /// The bundle-result stream closed or failed.
    ResultStreamEnded,
    /// The pending-transaction stream closed or failed.
    PendingStreamEnded,
}

/// What the caller does next.
#[derive(Debug, PartialEq, Eq)]
pub enum WorkflowAction {
    /// Ask the relay for the next leader, then report the answer.
    ProbeLeader,
    /// Sleep this many milliseconds, then report it.
    Sleep { ms: u64 },
    /// Ask the ledger for a fresh recency token, then report it.
    FetchRecencyToken,
    /// Send the transactions of this submission to the relay as one bundle,
    /// once, then report how it went.
    Submit(Submission),
    /// Await the next event of either stream, for at most this many
    /// milliseconds.
    Wait { timeout_ms: u64 },
    /// Make these pending transactions visible, then await the next event
    /// for at most this many milliseconds.
    Surface { transactions: Vec<PendingTransaction>, timeout_ms: u64 },
    /// Release both subscriptions: the run is over, with this end.
    Finish(Result<FinalStatus, WorkflowError>),
    /// Nothing: the event has no meaning where the run stands.
    Ignore,
}

/// An event of a run as a mathematical value.
pub enum WorkflowEventView {
    Started,
    LeaderProbed(SlotInfoView),
    LeaderProbeFailed,
    SleepElapsed,
    RecencyToken(Seq<u8>),
    RecencyTokenFailed,
    SubmitAcknowledged,
    SubmitFailed(ChannelFailure),
    BundleResult(ResultEventView),
    PendingTransactions(Seq<Option<Seq<Seq<u8>>>>),
    PollTimeout,
    ResultStreamEnded,
    PendingStreamEnded,
}

/// An action of a run as a mathematical value.
pub enum WorkflowActionView {
    ProbeLeader,
    Sleep { ms: u64 },
    FetchRecencyToken,
    Submit(SubmissionView),
    Wait { timeout_ms: u64 },
    Surface { transactions: Seq<Seq<Seq<u8>>>, timeout_ms: u64 },
    Finish(EndView),
    Ignore,
}

impl View for WorkflowEvent {
    type V = WorkflowEventView;

    open spec fn view(&self) -> WorkflowEventView {
        match self {
            WorkflowEvent::Started => WorkflowEventView::Started,
            WorkflowEvent::LeaderProbed(info) => WorkflowEventView::LeaderProbed(info@),
            WorkflowEvent::LeaderProbeFailed => WorkflowEventView::LeaderProbeFailed,
            WorkflowEvent::SleepElapsed => WorkflowEventView::SleepElapsed,
            WorkflowEvent::RecencyToken(token) => WorkflowEventView::RecencyToken(token@),
            WorkflowEvent::RecencyTokenFailed => WorkflowEventView::RecencyTokenFailed,
            WorkflowEvent::SubmitAcknowledged => WorkflowEventView::SubmitAcknowledged,
            WorkflowEvent::SubmitFailed(failure) => WorkflowEventView::SubmitFailed(*failure),
            WorkflowEvent::BundleResult(result) => WorkflowEventView::BundleResult(result@),
            WorkflowEvent::PendingTransactions(batch) => WorkflowEventView::PendingTransactions(
                batch@,
            ),
            WorkflowEvent::PollTimeout => WorkflowEventView::PollTimeout,
            WorkflowEvent::ResultStreamEnded => WorkflowEventView::ResultStreamEnded,
            WorkflowEvent::PendingStreamEnded => WorkflowEventView::PendingStreamEnded,
        }
    }
}

impl View for WorkflowAction {
    type V = WorkflowActionView;

    open spec fn view(&self) -> WorkflowActionView {
        match self {
            WorkflowAction::ProbeLeader => WorkflowActionView::ProbeLeader,
            WorkflowAction::Sleep { ms } => WorkflowActionView::Sleep { ms: *ms },
            WorkflowAction::FetchRecencyToken => WorkflowActionView::FetchRecencyToken,
            WorkflowAction::Submit(submission) => WorkflowActionView::Submit(submission@),
            WorkflowAction::Wait { timeout_ms } => WorkflowActionView::Wait {
                timeout_ms: *timeout_ms,
            },
            WorkflowAction::Surface { transactions, timeout_ms } => WorkflowActionView::Surface {
                transactions: pending_views(transactions@),
                timeout_ms: *timeout_ms,
            },
            WorkflowAction::Finish(end) => WorkflowActionView::Finish(end_view(*end)),
            WorkflowAction::Ignore => WorkflowActionView::Ignore,
        }
    }
}

/// Where a run stands.
enum Phase {
    Idle,
    ProbingLeader,
    Sleeping,
    FetchingToken,
    Submitting(BundleIdentity),
    Awaiting { correlator: Correlator, started_ms: u64 },
    Done(Result<FinalStatus, WorkflowError>),
}

/// Where a run stands, as a mathematical value.
pub enum PhaseView {
    /// The run has not begun.
    Idle,
    /// A leader probe is under way, before submission.
    ProbingLeader,
    /// The pause between two leader polls.
    Sleeping,
    /// The recency token is being fetched.
    FetchingToken,
    /// The bundle of this identity is being sent.
    Submitting(Seq<Seq<u8>>),
    /// The result is awaited, since `started_ms` on the caller's clock.
    Awaiting { correlator: CorrelatorView, started_ms: u64 },
    /// The run is over.
    Done(EndView),
}

impl View for Phase {
    type V = PhaseView;

    closed spec fn view(&self) -> PhaseView {
        match self {
            Phase::Idle => PhaseView::Idle,
            Phase::ProbingLeader => PhaseView::ProbingLeader,
            Phase::Sleeping => PhaseView::Sleeping,
            Phase::FetchingToken => PhaseView::FetchingToken,
            Phase::Submitting(identity) => PhaseView::Submitting(identity@),
            Phase::Awaiting { correlator, started_ms } => PhaseView::Awaiting {
                correlator: correlator@,
                started_ms: *started_ms,
            },
            Phase::Done(end) => PhaseView::Done(end_view(*end)),
        }
    }
}

/// One run of the confirmation workflow.
pub struct Workflow {
    config: WorkflowConfig,
    phase: Phase,
}

/// A run as a mathematical value.
pub struct WorkflowView {
    pub config: WorkflowConfig,
    pub phase: PhaseView,
}

impl View for Workflow {
    type V = WorkflowView;

    closed spec fn view(&self) -> WorkflowView {
        WorkflowView { config: self.config, phase: self.phase@ }
    }
}

/// The error that a refused bundle aborts the run with.
pub open spec fn build_error(error: BundleError) -> WorkflowError {
    match error {
        BundleError::InvalidBundleSize => WorkflowError::InvalidBundleSize,
        BundleError::SigningError => WorkflowError::SigningError,
    }
}

/// The time that has passed between two readings of the caller's clock.
pub open spec fn elapsed_between(started_ms: u64, now_ms: u64) -> u64 {
    if now_ms >= started_ms {
        (now_ms - started_ms) as u64
    } else {
        0
    }
}

/// What an event means to the result wait, if anything. The answer of a
/// probe counts only as a sign of life there.
pub open spec fn wait_event(event: WorkflowEventView) -> Option<EventView> {
    match event {
        WorkflowEventView::BundleResult(result) => Some(EventView::BundleResult(result)),
        WorkflowEventView::PendingTransactions(batch) => Some(
            EventView::PendingTransactions(batch),
        ),
        WorkflowEventView::PollTimeout => Some(EventView::PollTimeout),
        WorkflowEventView::LeaderProbed(_) => Some(EventView::ProbeCompleted),
        WorkflowEventView::LeaderProbeFailed => Some(EventView::ProbeFailed),
        WorkflowEventView::ResultStreamEnded => Some(EventView::ResultStreamEnded),
        WorkflowEventView::PendingStreamEnded => Some(EventView::PendingStreamEnded),
        _ => None,
    }
}

/// What an event says about the one transmission attempt, if anything.
pub open spec fn submit_outcome(event: WorkflowEventView) -> Option<Result<(), ChannelFailure>> {
    match event {
        WorkflowEventView::SubmitAcknowledged => Some(Ok(())),
        WorkflowEventView::SubmitFailed(failure) => Some(Err(failure)),
        _ => None,
    }
}

/// What the caller does for an action of the result wait.
pub open spec fn lifted(action: ActionView) -> WorkflowActionView {
    match action {
        ActionView::Wait { timeout_ms } => WorkflowActionView::Wait { timeout_ms },
        ActionView::Probe => WorkflowActionView::ProbeLeader,
        ActionView::Surface { transactions, timeout_ms } => WorkflowActionView::Surface {
            transactions,
            timeout_ms,
        },
        ActionView::Finish(end) => WorkflowActionView::Finish(end),
        ActionView::Ignore => WorkflowActionView::Ignore,
    }
}

impl WorkflowView {
    /// The payments of one transaction can be counted on the wire, and a
    /// result wait that is under way is not over.
    pub open spec fn well_formed(self) -> bool {
        &&& self.config.instructions_per_tx < MAX_WIRE_LIST
        &&& self.phase matches PhaseView::Awaiting { correlator, .. } ==> correlator.well_formed()
            && !correlator.state.is_terminal()
    }

    /// The run in another phase.
    pub open spec fn at(self, phase: PhaseView) -> Self {
        WorkflowView { phase, ..self }
    }

    /// The run ended, and the action that tells the caller so.
    pub open spec fn done(self, end: EndView) -> (Self, WorkflowActionView) {
        (self.at(PhaseView::Done(end)), WorkflowActionView::Finish(end))
    }

    /// The run unchanged by an event that has no meaning where it stands.
    pub open spec fn ignore(self) -> (Self, WorkflowActionView) {
        (self, WorkflowActionView::Ignore)
    }

    /// The run after the relay answered a leader probe before submission.
    pub open spec fn after_leader_probe(self, info: SlotInfoView) -> (Self, WorkflowActionView) {
        match info.gate(self.config.proximity_threshold, self.config.leader_poll_interval_ms) {
            LeaderGate::Proceed => (
                self.at(PhaseView::FetchingToken),
                WorkflowActionView::FetchRecencyToken,
            ),
            LeaderGate::PollAgain { sleep_ms } => (
                self.at(PhaseView::Sleeping),
                WorkflowActionView::Sleep { ms: sleep_ms },
            ),
        }
    }

    /// The run after the builder answered: the bundle is handed over for
    /// sending, or the run ends with the builder's error. The answer has
    /// no meaning unless the recency token was being fetched.
    pub open spec fn after_build(self, answer: Result<BundleView, BundleError>) -> (
        Self,
        WorkflowActionView,
    ) {
        if self.phase is FetchingToken {
            match answer {
                Ok(bundle) => (
                    self.at(PhaseView::Submitting(submission_of(bundle).identity)),
                    WorkflowActionView::Submit(submission_of(bundle)),
                ),
                Err(e) => self.done(Err(build_error(e))),
            }
        } else {
            self.ignore()
        }
    }

    /// The run after the recency token arrived: the bundle is built with
    /// it, and the run goes on as after the builder's answer.
    pub open spec fn after_token(self, token: Seq<u8>) -> (Self, WorkflowActionView) {
        self.after_build(
            built(
                self.config.payer_keys@,
                self.config.recipient@,
                self.config.tip_account@,
                self.config.tip_lamports,
                token,
                self.config.instructions_per_tx as nat,
                self.config.tx_count as nat,
            ),
        )
    }

    /// The run after the relay acknowledged the bundle `identity`: the
    /// result wait begins.
    pub open spec fn after_acknowledgement(self, identity: Seq<Seq<u8>>, now_ms: u64) -> (
        Self,
        WorkflowActionView,
    ) {
        let correlator = CorrelatorView::start(
            identity,
            self.config.poll_timeout_ms,
            self.config.deadline_ms,
        );
        (
            self.at(PhaseView::Awaiting { correlator, started_ms: now_ms }),
            WorkflowActionView::Wait { timeout_ms: correlator.wait_budget(0) },
        )
    }

    /// The run after an event of the result wait.
    pub open spec fn after_wait_event(
        self,
        correlator: CorrelatorView,
        started_ms: u64,
        event: EventView,
        now_ms: u64,
    ) -> (Self, WorkflowActionView) {
        let (next, action) = correlator.step(event, elapsed_between(started_ms, now_ms));
        match action {
            ActionView::Finish(end) => self.done(end),
            _ => (self.at(PhaseView::Awaiting { correlator: next, started_ms }), lifted(action)),
        }
    }

    /// The run after `event`, reported at `now_ms` on the caller's clock,
    /// and what the caller does next.
    pub open spec fn step(self, event: WorkflowEventView, now_ms: u64) -> (
        Self,
        WorkflowActionView,
    ) {
        match self.phase {
            PhaseView::Idle => match event {
                WorkflowEventView::Started => (
                    self.at(PhaseView::ProbingLeader),
                    WorkflowActionView::ProbeLeader,
                ),
                _ => self.ignore(),
            },
            PhaseView::ProbingLeader => match event {
                WorkflowEventView::LeaderProbed(info) => self.after_leader_probe(info),
                WorkflowEventView::LeaderProbeFailed => self.done(
                    Err(WorkflowError::TransportError),
                ),
                _ => self.ignore(),
            },
            PhaseView::Sleeping => match event {
                WorkflowEventView::SleepElapsed => (
                    self.at(PhaseView::ProbingLeader),
                    WorkflowActionView::ProbeLeader,
                ),
                _ => self.ignore(),
            },
            PhaseView::FetchingToken => match event {
                WorkflowEventView::RecencyToken(token) => self.after_token(token),
                WorkflowEventView::RecencyTokenFailed => self.done(
                    Err(WorkflowError::TransportError),
                ),
                _ => self.ignore(),
            },
            PhaseView::Submitting(identity) => match submit_outcome(event) {
                Some(outcome) => match concluded(identity, outcome) {
                    Ok(known) => self.after_acknowledgement(known, now_ms),
                    Err(e) => self.done(Err(e)),
                },
                None => self.ignore(),
            },
            PhaseView::Awaiting { correlator, started_ms } => match wait_event(event) {
                Some(inner) => self.after_wait_event(correlator, started_ms, inner, now_ms),
                None => self.ignore(),
            },
            PhaseView::Done(_) => self.ignore(),
        }
    }
}

/// A second value of the same end.
fn copy_end(end: &Result<FinalStatus, WorkflowError>) -> (r: Result<FinalStatus, WorkflowError>)
    ensures
        end_view(r) == end_view(*end),
{
    match end {
        Ok(FinalStatus::Confirmed) => Ok(FinalStatus::Confirmed),
        Ok(FinalStatus::Rejected(reason)) => Ok(FinalStatus::Rejected(reason.clone())),
        Ok(FinalStatus::ConnectionLost) => Ok(FinalStatus::ConnectionLost),
        Ok(FinalStatus::DeadlineExceeded) => Ok(FinalStatus::DeadlineExceeded),
        Err(e) => Err(*e),
    }
}

/// What an event means to the result wait, if anything.
fn to_wait_event(event: WorkflowEvent) -> (r: Option<CorrelatorEvent>)
    ensures
        match r {
            Some(inner) => wait_event(event@) == Some(inner@),
            None => wait_event(event@) is None,
        },
{
    match event {
        WorkflowEvent::BundleResult(result) => Some(CorrelatorEvent::BundleResult(result)),
        WorkflowEvent::PendingTransactions(batch) => Some(
            CorrelatorEvent::PendingTransactions(batch),
        ),
        WorkflowEvent::PollTimeout => Some(CorrelatorEvent::PollTimeout),
        WorkflowEvent::LeaderProbed(_) => Some(CorrelatorEvent::ProbeCompleted),
        WorkflowEvent::LeaderProbeFailed => Some(CorrelatorEvent::ProbeFailed),
        WorkflowEvent::ResultStreamEnded => Some(CorrelatorEvent::ResultStreamEnded),
        WorkflowEvent::PendingStreamEnded => Some(CorrelatorEvent::PendingStreamEnded),
        _ => None,
    }
}

/// What the caller does for an action of the result wait.
fn lift(action: CorrelatorAction) -> (r: WorkflowAction)
    ensures
        r@ == lifted(action@),
{
    match action {
        CorrelatorAction::Wait { timeout_ms } => WorkflowAction::Wait { timeout_ms },
        CorrelatorAction::Probe => WorkflowAction::ProbeLeader,
        CorrelatorAction::Surface { transactions, timeout_ms } => WorkflowAction::Surface {
            transactions,
            timeout_ms,
        },
        CorrelatorAction::Finish(end) => WorkflowAction::Finish(end),
        CorrelatorAction::Ignore => WorkflowAction::Ignore,
    }
}

impl BundleError {
    /// The error that this refusal aborts a run with.
    pub fn workflow_error(&self) -> (r: WorkflowError)
        ensures
            r == build_error(*self),
    {
        match self {
            BundleError::InvalidBundleSize => WorkflowError::InvalidBundleSize,
            BundleError::SigningError => WorkflowError::SigningError,
        }
    }
}

impl Workflow {
    /// A run that has not begun. It begins with the event `Started`.
    pub fn new(config: WorkflowConfig) -> (r: Workflow)
        requires
            config.instructions_per_tx < MAX_WIRE_LIST,
        ensures
            r@ == (WorkflowView { config, phase: PhaseView::Idle }),
            r@.well_formed(),
    {
        Workflow { config, phase: Phase::Idle }
    }

    /// What the run was asked to do.
    pub fn config(&self) -> (r: &WorkflowConfig)
        ensures
            *r == self@.config,
    {
        &self.config
    }

    /// How the run ended, once it is over.
    pub fn end(&self) -> (r: Option<Result<FinalStatus, WorkflowError>>)
        ensures
            match r {
                Some(end) => self@.phase == PhaseView::Done(end_view(end)),
                None => !(self@.phase is Done),
            },
    {
        match &self.phase {
            Phase::Done(end) => Some(copy_end(end)),
            _ => None,
        }
    }

    /// Whether the two subscriptions are still held: they are until the
    /// run is over, and both are released together.
    pub fn subscriptions_held(&self) -> (r: bool)
        ensures
            r == !(self@.phase is Done),
    {
        match &self.phase {
            Phase::Done(_) => false,
            _ => true,
        }
    }

    /// Ends the run.
    fn finish(&mut self, end: Result<FinalStatus, WorkflowError>) -> (action: WorkflowAction)
        requires
            old(self)@.config.instructions_per_tx < MAX_WIRE_LIST,
        ensures
            (final(self)@, action@) == old(self)@.done(end_view(end)),
            final(self)@.well_formed(),
    {
        self.phase = Phase::Done(copy_end(&end));
        WorkflowAction::Finish(end)
    }

    /// Takes in the builder's answer: hands the bundle over for sending,
    /// or ends the run with the builder's error. `step` calls this with
    /// the bundle it built; the answer is ignored unless the recency
    /// token was being fetched.
    pub fn on_built(&mut self, answer: Result<Bundle, BundleError>) -> (action: WorkflowAction)
        requires
            old(self)@.well_formed(),
        ensures
            (final(self)@, action@) == old(self)@.after_build(bundle_result_view(answer)),
            final(self)@.well_formed(),
    {
        match &self.phase {
            Phase::FetchingToken => {},
            _ => {
                return WorkflowAction::Ignore;
            },
        }
        match answer {
            Ok(bundle) => {
                let submission = Submission::prepare(&bundle);
                self.phase = Phase::Submitting(bundle.identity());
                WorkflowAction::Submit(submission)
            },
            Err(e) => self.finish(Err(e.workflow_error())),
        }
    }

    /// Takes in one event, reported at `now_ms` on the caller's clock, and
    /// says what the caller does next.
    ///
    /// A run goes through its phases in order: it probes the leader
    /// schedule, sleeping between polls, until the leader slot is near;
    /// fetches a recency token; builds the bundle and hands it over for
    /// sending; and awaits the result. A failure on the way ends the run at
    /// once. An event that has no meaning in the current phase is ignored.
    pub fn step(&mut self, event: WorkflowEvent, now_ms: u64) -> (action: WorkflowAction)
        requires
            old(self)@.well_formed(),
        ensures
            (final(self)@, action@) == old(self)@.step(event@, now_ms),
            final(self)@.well_formed(),
    {
        let mut phase = Phase::Idle;
        core::mem::swap(&mut self.phase, &mut phase);
        match phase {
            Phase::Idle => match event {
                WorkflowEvent::Started => {
                    self.phase = Phase::ProbingLeader;
                    WorkflowAction::ProbeLeader
                },
                _ => WorkflowAction::Ignore,
            },
            Phase::ProbingLeader => match event {
                WorkflowEvent::LeaderProbed(info) => {
                    match info.gate(
                        self.config.proximity_threshold,
                        self.config.leader_poll_interval_ms,
                    ) {
                        LeaderGate::Proceed => {
                            self.phase = Phase::FetchingToken;
                            WorkflowAction::FetchRecencyToken
                        },
                        LeaderGate::PollAgain { sleep_ms } => {
                            self.phase = Phase::Sleeping;
                            WorkflowAction::Sleep { ms: sleep_ms }
                        },
                    }
                },
                WorkflowEvent::LeaderProbeFailed => self.finish(Err(WorkflowError::TransportError)),
                _ => {
                    self.phase = Phase::ProbingLeader;
                    WorkflowAction::Ignore
                },
            },
            Phase::Sleeping => match event {
                WorkflowEvent::SleepElapsed => {
                    self.phase = Phase::ProbingLeader;
                    WorkflowAction::ProbeLeader
                },
                _ => {
                    self.phase = Phase::Sleeping;
                    WorkflowAction::Ignore
                },
            },
            Phase::FetchingToken => match event {
                WorkflowEvent::RecencyToken(token) => {
                    self.phase = Phase::FetchingToken;
                    let answer = build_bundle(
                        &self.config.payer_keys,
                        &self.config.recipient,
                        &self.config.tip_account,
                        self.config.tip_lamports,
                        &token,
                        self.config.instructions_per_tx,
                        self.config.tx_count,
                    );
                    self.on_built(answer)
                },
                WorkflowEvent::RecencyTokenFailed => self.finish(
                    Err(WorkflowError::TransportError),
                ),
                _ => {
                    self.phase = Phase::FetchingToken;
                    WorkflowAction::Ignore
                },
            },
            Phase::Submitting(identity) => {
                let outcome = match event {
                    WorkflowEvent::SubmitAcknowledged => Some(Ok(())),
                    WorkflowEvent::SubmitFailed(failure) => Some(Err(failure)),
                    _ => None,
                };
                match outcome {
                    Some(outcome) => match Submission::conclude(identity, outcome) {
                        Ok(known) => {
                            let correlator = Correlator::new(
                                known,
                                self.config.poll_timeout_ms,
                                self.config.deadline_ms,
                            );
                            let timeout_ms = correlator.wait_budget(0);
                            self.phase = Phase::Awaiting { correlator, started_ms: now_ms };
                            WorkflowAction::Wait { timeout_ms }
                        },
                        Err(e) => self.finish(Err(e)),
                    },
                    None => {
                        self.phase = Phase::Submitting(identity);
                        WorkflowAction::Ignore
                    },
                }
            },
            Phase::Awaiting { correlator, started_ms } => {
                let mut correlator = correlator;
                match to_wait_event(event) {
                    Some(inner) => {
                        let elapsed_ms = if now_ms >= started_ms {
                            now_ms - started_ms
                        } else {
                            0
                        };
                        match correlator.on_event(inner, elapsed_ms) {
                            CorrelatorAction::Finish(end) => self.finish(end),
                            other => {
                                self.phase = Phase::Awaiting { correlator, started_ms };
                                lift(other)
                            },
                        }
                    },
                    None => {
                        self.phase = Phase::Awaiting { correlator, started_ms };
                        WorkflowAction::Ignore
                    },
                }
            },
            Phase::Done(end) => {
                self.phase = Phase::Done(end);
                WorkflowAction::Ignore
            },
        }
    }
}

/// An event together with the reading of the caller's clock at which it
/// was reported.
pub struct TimedWorkflowEvent {
    pub event: WorkflowEventView,
    pub now_ms: u64,
}

impl PhaseView {
    /// Whether the bundle has not been handed over for sending yet.
    pub open spec fn before_submission(self) -> bool {
        self is Idle || self is ProbingLeader || self is Sleeping || self is FetchingToken
    }
}

impl WorkflowView {
    /// The run after a sequence of events.
    pub open spec fn run(self, events: Seq<TimedWorkflowEvent>) -> Self
        decreases events.len(),
    {
        if events.len() == 0 {
            self
        } else {
            self.run(events.drop_last()).step(events.last().event, events.last().now_ms).0
        }
    }

    /// How often the run hands a bundle over for sending during a sequence
    /// of events.
    pub open spec fn submissions_during(self, events: Seq<TimedWorkflowEvent>) -> nat
        decreases events.len(),
    {
        if events.len() == 0 {
            0
        } else {
            let asked = self.run(events.drop_last()).step(
                events.last().event,
                events.last().now_ms,
            ).1;
            self.submissions_during(events.drop_last()) + if asked is Submit {
                1nat
            } else {
                0nat
            }
        }
    }
}

/// Every step keeps a run well formed and leaves its configuration alone.
pub proof fn lemma_step_keeps_well_formed(w: WorkflowView, event: WorkflowEventView, now_ms: u64)
    requires
        w.well_formed(),
    ensures
        w.step(event, now_ms).0.well_formed(),
        w.step(event, now_ms).0.config == w.config,
{
}

/// While the leader slot is awaited, an answer within the threshold moves
/// the run on to fetch the recency token; an answer beyond it makes the
/// run sleep for the poll interval, after which it probes again.
pub proof fn lemma_leader_gate(w: WorkflowView, info: SlotInfoView, now_ms: u64)
    requires
        w.phase is ProbingLeader,
        info.well_formed(),
    ensures
        info.next_leader_slot - info.current_slot <= w.config.proximity_threshold ==> w.step(
            WorkflowEventView::LeaderProbed(info),
            now_ms,
        ) == (w.at(PhaseView::FetchingToken), WorkflowActionView::FetchRecencyToken),
        info.next_leader_slot - info.current_slot > w.config.proximity_threshold ==> {
            let (asleep, action) = w.step(WorkflowEventView::LeaderProbed(info), now_ms);
            &&& asleep == w.at(PhaseView::Sleeping)
            &&& action == WorkflowActionView::Sleep { ms: w.config.leader_poll_interval_ms }
            &&& asleep.step(WorkflowEventView::SleepElapsed, now_ms) == (
                w.at(PhaseView::ProbingLeader),
                WorkflowActionView::ProbeLeader,
            )
        },
{
}

/// A failure of the leader probe or of the submission ends the run at
/// once, with the error of the failure.
pub proof fn lemma_failures_abort(w: WorkflowView, failure: ChannelFailure, now_ms: u64)
    ensures
        w.phase is ProbingLeader ==> w.step(WorkflowEventView::LeaderProbeFailed, now_ms)
            == w.done(Err(WorkflowError::TransportError)),
        w.phase is FetchingToken ==> w.step(WorkflowEventView::RecencyTokenFailed, now_ms)
            == w.done(Err(WorkflowError::TransportError)),
        w.phase is Submitting ==> w.step(WorkflowEventView::SubmitFailed(failure), now_ms)
            == w.done(Err(channel_error(failure))),
{
}

/// Once a run is over, no event changes it or asks anything of the caller:
/// a bundle whose wait ran out is not sent again.
pub proof fn lemma_done_is_final(w: WorkflowView, event: WorkflowEventView, now_ms: u64)
    requires
        w.phase is Done,
    ensures
        w.step(event, now_ms) == (w, WorkflowActionView::Ignore),
{
}

/// Where either stream ends while the result is awaited, the run ends
/// with a lost connection and releases both subscriptions.
pub proof fn lemma_stream_end_ends_run(w: WorkflowView, event: WorkflowEventView, now_ms: u64)
    requires
        w.well_formed(),
        w.phase is Awaiting,
        event is ResultStreamEnded || event is PendingStreamEnded,
    ensures
        w.step(event, now_ms) == w.done(Ok(FinalStatusView::ConnectionLost)),
{
}

/// While the result is awaited, the run follows the correlator: it ends
/// when the correlator finishes, with the same end, and goes on as the
/// correlator says otherwise.
pub proof fn lemma_wait_follows_correlator(w: WorkflowView, event: WorkflowEventView, now_ms: u64)
    requires
        w.well_formed(),
        w.phase is Awaiting,
        wait_event(event) is Some,
    ensures
        ({
            let correlator = w.phase->Awaiting_correlator;
            let started_ms = w.phase->Awaiting_started_ms;
            let (next, action) = correlator.step(
                wait_event(event)->0,
                elapsed_between(started_ms, now_ms),
            );
            let (after, asked) = w.step(event, now_ms);
            &&& next.state.is_terminal() ==> after.phase == PhaseView::Done(next.state.end())
                && asked == WorkflowActionView::Finish(next.state.end())
            &&& !next.state.is_terminal() ==> after.phase == (PhaseView::Awaiting {
                correlator: next,
                started_ms,
            }) && asked == lifted(action)
        }),
{
}

/// In any run, the bundle is handed over for sending at most once, and
/// not at all while the run is still before submission.
pub proof fn lemma_at_most_one_submission(w: WorkflowView, events: Seq<TimedWorkflowEvent>)
    requires
        w.phase is Idle,
    ensures
        w.submissions_during(events) <= 1,
        w.run(events).phase.before_submission() ==> w.submissions_during(events) == 0,
    decreases events.len(),
{
    if events.len() > 0 {
        lemma_at_most_one_submission(w, events.drop_last());
    }
}

/// Whether the events are those of a leader wait in which every answer is
/// beyond the threshold: each answer is followed by the end of the pause.
pub open spec fn keeps_polling(events: Seq<TimedWorkflowEvent>, threshold: u64) -> bool {
    &&& events.len() % 2 == 0
    &&& forall|i: int|
        0 <= i < events.len() ==> if i % 2 == 0 {
            (#[trigger] events[i]).event matches WorkflowEventView::LeaderProbed(info)
                && info.slots_until() > threshold
        } else {
            events[i].event is SleepElapsed
        }
}

/// As long as every answer puts the leader slot beyond the threshold, the
/// run keeps polling: after each answer and pause it stands where it
/// stood, about to probe again, and nothing has been sent.
pub proof fn lemma_far_leader_keeps_polling(w: WorkflowView, events: Seq<TimedWorkflowEvent>)
    requires
        w.phase is ProbingLeader,
        keeps_polling(events, w.config.proximity_threshold),
    ensures
        w.run(events) == w,
    decreases events.len(),
{
    if events.len() > 0 {
        let answered = events.drop_last();
        let before = answered.drop_last();
        assert forall|i: int| 0 <= i < before.len() implies if i % 2 == 0 {
            (#[trigger] before[i]).event matches WorkflowEventView::LeaderProbed(info)
                && info.slots_until() > w.config.proximity_threshold
        } else {
            before[i].event is SleepElapsed
        } by {
            assert(before[i] == events[i]);
        }
        lemma_far_leader_keeps_polling(w, before);
        assert(answered.last() == events[events.len() - 2]);
        assert(events.last() == events[events.len() - 1]);
        assert(w.run(answered) == w.at(PhaseView::Sleeping));
    }
}

} // verus!
