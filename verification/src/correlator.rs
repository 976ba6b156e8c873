//! The result correlator: one submitted bundle, the relay's two streams and
//! a liveness timer, folded into one final status.
//!
//! The correlator does no waiting itself. The caller awaits the next thing
//! to happen on either stream or the timer, hands it in as an event together
//! with the time that has passed since the wait began, and carries out the
//! action that comes back.

use vstd::prelude::*;
use crate::bundle::BundleIdentity;
use crate::ledger::Signature;
use crate::status::{EndView, FinalStatus, FinalStatusView, WorkflowError, end_view};

verus! {

/// The wait, in milliseconds, after which silence leads to a liveness probe.
pub const DEFAULT_POLL_TIMEOUT_MS: u64 = 5_000;

/// What the relay decided about a bundle.
#[derive(Clone, Debug, PartialEq, Eq)]
pub enum BundleOutcome {
    /// The bundle was accepted for the leader's block.
    Accepted,
    /// The bundle was rejected, for this reason.
    Rejected(String),
    /// The bundle was dropped without a decision.
    Dropped,
}

/// One notification of the bundle-result stream.
#[derive(Clone, Debug, PartialEq, Eq)]
pub struct BundleResultEvent {
    /// The bundle the notification is about.
    pub identity: BundleIdentity,
    /// What the relay decided.
    pub outcome: BundleOutcome,
}

/// A transaction that the relay saw pending, as far as it is surfaced: its
/// signatures, the primary one first.
#[derive(Clone, Debug, PartialEq, Eq)]
pub struct PendingTransaction {
    pub signatures: Vec<Signature>,
}

/// One notification of the pending-transaction stream: for each raw packet
/// of the batch, the transaction it decoded to, or `None` for a malformed
/// packet.
#[derive(Clone, Debug, PartialEq, Eq)]
pub struct PendingTxNotification {
    pub packets: Vec<Option<PendingTransaction>>,
}

/// Where the wait for one bundle stands.
#[derive(Clone, Debug, PartialEq, Eq)]
pub enum WaitState {
    /// The bundle is submitted and no result has arrived.
    Submitted,
    /// A liveness probe is under way.
    Probing,
    /// The relay accepted the bundle.
    Confirmed,
    /// The relay rejected or dropped the bundle.
    Failed(String),
    /// A subscription closed or failed.
    ConnectionLost,
    /// The overall wait budget ran out.
    DeadlineExceeded,
    /// A liveness probe failed.
    ProbeFailed,
}

/// What can happen while a result is awaited.
#[derive(Clone, Debug, PartialEq, Eq)]
pub enum CorrelatorEvent {
    /// The bundle-result stream delivered a notification.
    BundleResult(BundleResultEvent),
    /// The pending-transaction stream delivered a batch.
    PendingTransactions(PendingTxNotification),
    /// The poll timer ran out with nothing delivered.
    PollTimeout,
    /// The liveness probe came back.
    ProbeCompleted,
    /// The liveness probe failed.
    ProbeFailed,
    /// The bundle-result stream closed or failed.
    ResultStreamEnded,
    /// The pending-transaction stream closed or failed.
    PendingStreamEnded,
}

/// What the caller does next.
#[derive(Debug, PartialEq, Eq)]
pub enum CorrelatorAction {
    /// Await the next event, for at most this many milliseconds.
    Wait { timeout_ms: u64 },
    /// Ask the relay once for the next leader, then report how it went.
    Probe,
    /// Make these pending transactions visible, then await the next event
    /// for at most this many milliseconds.
    Surface { transactions: Vec<PendingTransaction>, timeout_ms: u64 },
    /// Release both subscriptions: the wait is over, with this end.
    Finish(Result<FinalStatus, WorkflowError>),
    /// Nothing: the wait was over before this event.
    Ignore,
}

/// A relay's decision as a mathematical value.
pub enum OutcomeView {
    Accepted,
    Rejected(Seq<char>),
    Dropped,
}

/// A bundle-result notification as a mathematical value.
pub struct ResultEventView {
    pub identity: Seq<Seq<u8>>,
    pub outcome: OutcomeView,
}

/// Where a wait stands, as a mathematical value.
pub enum WaitStateView {
    Submitted,
    Probing,
    Confirmed,
    Failed(Seq<char>),
    ConnectionLost,
    DeadlineExceeded,
    ProbeFailed,
}

/// An event of the wait as a mathematical value. A pending transaction
/// is the list of its signatures.
pub enum EventView {
    BundleResult(ResultEventView),
    PendingTransactions(Seq<Option<Seq<Seq<u8>>>>),
    PollTimeout,
    ProbeCompleted,
    ProbeFailed,
    ResultStreamEnded,
    PendingStreamEnded,
}

/// An action of the wait as a mathematical value.
pub enum ActionView {
    Wait { timeout_ms: u64 },
    Probe,
    Surface { transactions: Seq<Seq<Seq<u8>>>, timeout_ms: u64 },
    Finish(EndView),
    Ignore,
}

impl View for BundleOutcome {
    type V = OutcomeView;

    open spec fn view(&self) -> OutcomeView {
        match self {
            BundleOutcome::Accepted => OutcomeView::Accepted,
            BundleOutcome::Rejected(reason) => OutcomeView::Rejected(reason@),
            BundleOutcome::Dropped => OutcomeView::Dropped,
        }
    }
}

impl View for BundleResultEvent {
    type V = ResultEventView;

    open spec fn view(&self) -> ResultEventView {
        ResultEventView { identity: self.identity@, outcome: self.outcome@ }
    }
}

impl View for PendingTransaction {
    type V = Seq<Seq<u8>>;

    open spec fn view(&self) -> Seq<Seq<u8>> {
        Seq::new(self.signatures@.len(), |i: int| self.signatures@[i]@)
    }
}

/// The views of a list of pending transactions, in order.
pub open spec fn pending_views(list: Seq<PendingTransaction>) -> Seq<Seq<Seq<u8>>> {
    Seq::new(list.len(), |i: int| list[i]@)
}

/// The view of one packet's decoding.
pub open spec fn packet_view(packet: Option<PendingTransaction>) -> Option<Seq<Seq<u8>>> {
    match packet {
        Some(tx) => Some(tx@),
        None => None,
    }
}

impl View for PendingTxNotification {
    type V = Seq<Option<Seq<Seq<u8>>>>;

    open spec fn view(&self) -> Seq<Option<Seq<Seq<u8>>>> {
        Seq::new(self.packets@.len(), |i: int| packet_view(self.packets@[i]))
    }
}

impl View for WaitState {
    type V = WaitStateView;

    open spec fn view(&self) -> WaitStateView {
        match self {
            WaitState::Submitted => WaitStateView::Submitted,
            WaitState::Probing => WaitStateView::Probing,
            WaitState::Confirmed => WaitStateView::Confirmed,
            WaitState::Failed(reason) => WaitStateView::Failed(reason@),
            WaitState::ConnectionLost => WaitStateView::ConnectionLost,
            WaitState::DeadlineExceeded => WaitStateView::DeadlineExceeded,
            WaitState::ProbeFailed => WaitStateView::ProbeFailed,
        }
    }
}

impl View for CorrelatorEvent {
    type V = EventView;

    open spec fn view(&self) -> EventView {
        match self {
            CorrelatorEvent::BundleResult(event) => EventView::BundleResult(event@),
            CorrelatorEvent::PendingTransactions(batch) => EventView::PendingTransactions(batch@),
            CorrelatorEvent::PollTimeout => EventView::PollTimeout,
            CorrelatorEvent::ProbeCompleted => EventView::ProbeCompleted,
            CorrelatorEvent::ProbeFailed => EventView::ProbeFailed,
            CorrelatorEvent::ResultStreamEnded => EventView::ResultStreamEnded,
            CorrelatorEvent::PendingStreamEnded => EventView::PendingStreamEnded,
        }
    }
}

impl View for CorrelatorAction {
    type V = ActionView;

    open spec fn view(&self) -> ActionView {
        match self {
            CorrelatorAction::Wait { timeout_ms } => ActionView::Wait { timeout_ms: *timeout_ms },
            CorrelatorAction::Probe => ActionView::Probe,
            CorrelatorAction::Surface { transactions, timeout_ms } => ActionView::Surface {
                transactions: pending_views(transactions@),
                timeout_ms: *timeout_ms,
            },
            CorrelatorAction::Finish(end) => ActionView::Finish(end_view(*end)),
            CorrelatorAction::Ignore => ActionView::Ignore,
        }
    }
}

impl WaitStateView {
    /// Whether the wait is over.
    pub open spec fn is_terminal(self) -> bool {
        !(self is Submitted || self is Probing)
    }

    /// How a run ends in this state, where the wait is over.
    pub open spec fn end(self) -> EndView {
        match self {
            WaitStateView::Failed(reason) => Ok(FinalStatusView::Rejected(reason)),
            WaitStateView::ConnectionLost => Ok(FinalStatusView::ConnectionLost),
            WaitStateView::DeadlineExceeded => Ok(FinalStatusView::DeadlineExceeded),
            WaitStateView::ProbeFailed => Err(WorkflowError::TransportError),
            _ => Ok(FinalStatusView::Confirmed),
        }
    }
}

/// The reason recorded for a bundle that the relay dropped.
pub open spec fn dropped_reason() -> Seq<char> {
    "dropped"@
}

/// The state that a relay's decision leads to.
pub open spec fn decided(outcome: OutcomeView) -> WaitStateView {
    match outcome {
        OutcomeView::Accepted => WaitStateView::Confirmed,
        OutcomeView::Rejected(reason) => WaitStateView::Failed(reason),
        OutcomeView::Dropped => WaitStateView::Failed(dropped_reason()),
    }
}

/// The transactions of a batch, in order, the malformed packets left out.
pub open spec fn decoded(packets: Seq<Option<Seq<Seq<u8>>>>) -> Seq<Seq<Seq<u8>>>
    decreases packets.len(),
{
    if packets.len() == 0 {
        Seq::empty()
    } else {
        match packets.last() {
            Some(tx) => decoded(packets.drop_last()).push(tx),
            None => decoded(packets.drop_last()),
        }
    }
}

/// The wait for the result of one submitted bundle.
pub struct Correlator {
    identity: BundleIdentity,
    state: WaitState,
    results_open: bool,
    pending_open: bool,
    poll_timeout_ms: u64,
    deadline_ms: u64,
}

/// A correlator as a mathematical value.
pub struct CorrelatorView {
    /// The bundle whose result is awaited.
    pub identity: Seq<Seq<u8>>,
    pub state: WaitStateView,
    /// Whether the bundle-result subscription is held.
    pub results_open: bool,
    /// Whether the pending-transaction subscription is held.
    pub pending_open: bool,
    /// The longest silence before a liveness probe, in milliseconds.
    pub poll_timeout_ms: u64,
    /// The overall wait budget, in milliseconds.
    pub deadline_ms: u64,
}

impl View for Correlator {
    type V = CorrelatorView;

    closed spec fn view(&self) -> CorrelatorView {
        CorrelatorView {
            identity: self.identity@,
            state: self.state@,
            results_open: self.results_open,
            pending_open: self.pending_open,
            poll_timeout_ms: self.poll_timeout_ms,
            deadline_ms: self.deadline_ms,
        }
    }
}

impl CorrelatorView {
    /// Both subscriptions are held while the wait goes on, and neither
    /// once it is over.
    pub open spec fn well_formed(self) -> bool {
        &&& self.results_open == !self.state.is_terminal()
        &&& self.pending_open == !self.state.is_terminal()
    }

    /// The correlator at the start of a wait.
    pub open spec fn start(identity: Seq<Seq<u8>>, poll_timeout_ms: u64, deadline_ms: u64) -> Self {
        CorrelatorView {
            identity,
            state: WaitStateView::Submitted,
            results_open: true,
            pending_open: true,
            poll_timeout_ms,
            deadline_ms,
        }
    }

    /// The longest the caller may await the next event: the poll timeout,
    /// cut to what is left of the wait budget.
    pub open spec fn wait_budget(self, elapsed_ms: u64) -> u64 {
        if elapsed_ms >= self.deadline_ms {
            0
        } else if self.deadline_ms - elapsed_ms < self.poll_timeout_ms {
            (self.deadline_ms - elapsed_ms) as u64
        } else {
            self.poll_timeout_ms
        }
    }

    /// The end of the wait in `state`, with both subscriptions released.
    pub open spec fn finish(self, state: WaitStateView) -> (Self, ActionView) {
        (
            CorrelatorView { state, results_open: false, pending_open: false, ..self },
            ActionView::Finish(state.end()),
        )
    }

    /// The wait going on in `state`.
    pub open spec fn stay(self, state: WaitStateView) -> Self {
        CorrelatorView { state, ..self }
    }

    /// Whether `event` ends the wait whatever the time: a decision about
    /// this bundle, the end of a stream, or a failed probe.
    pub open spec fn ends_wait(self, event: EventView) -> bool {
        match event {
            EventView::BundleResult(result) => result.identity == self.identity,
            EventView::ResultStreamEnded => true,
            EventView::PendingStreamEnded => true,
            EventView::ProbeFailed => true,
            _ => false,
        }
    }

    /// The correlator after `event`, which arrived `elapsed_ms` after the
    /// wait began, and what the caller does next.
    pub open spec fn step(self, event: EventView, elapsed_ms: u64) -> (Self, ActionView) {
        if self.state.is_terminal() {
            (self, ActionView::Ignore)
        } else if self.ends_wait(event) {
            match event {
                EventView::BundleResult(result) => self.finish(decided(result.outcome)),
                EventView::ProbeFailed => self.finish(WaitStateView::ProbeFailed),
                _ => self.finish(WaitStateView::ConnectionLost),
            }
        } else if elapsed_ms >= self.deadline_ms {
            self.finish(WaitStateView::DeadlineExceeded)
        } else {
            match event {
                EventView::PendingTransactions(packets) => (
                    self,
                    ActionView::Surface {
                        transactions: decoded(packets),
                        timeout_ms: self.wait_budget(elapsed_ms),
                    },
                ),
                EventView::PollTimeout => (self.stay(WaitStateView::Probing), ActionView::Probe),
                EventView::ProbeCompleted => (
                    self.stay(WaitStateView::Submitted),
                    ActionView::Wait { timeout_ms: self.wait_budget(elapsed_ms) },
                ),
                _ => (self, ActionView::Wait { timeout_ms: self.wait_budget(elapsed_ms) }),
            }
        }
    }
}

impl PendingTransaction {
    /// The signature that names the transaction: its first.
    pub fn primary_signature(&self) -> (r: &Signature)
        requires
            self@.len() > 0,
        ensures
            r@ == self@[0],
    {
        &self.signatures[0]
    }
}

impl PendingTxNotification {
    /// The transactions of the batch, in order, the malformed packets left
    /// out.
    pub fn surface(&self) -> (r: Vec<PendingTransaction>)
        ensures
            pending_views(r@) == decoded(self@),
    {
        let mut out: Vec<PendingTransaction> = Vec::new();
        let mut i: usize = 0;
        assert(self@.take(0) =~= Seq::empty());
        while i < self.packets.len()
            invariant
                i <= self.packets.len(),
                pending_views(out@) == decoded(self@.take(i as int)),
            decreases self.packets.len() - i,
        {
            proof {
                let next = self@.take(i + 1);
                assert(next.drop_last() =~= self@.take(i as int));
                assert(next.last() == packet_view(self.packets@[i as int]));
            }
            match &self.packets[i] {
                Some(tx) => {
                    let copy = PendingTransaction { signatures: tx.signatures.clone() };
                    assert(copy@ =~= tx@);
                    let ghost before = pending_views(out@);
                    out.push(copy);
                    assert(pending_views(out@) =~= before.push(tx@));
                },
                None => {},
            }
            i += 1;
        }
        assert(self@.take(self.packets.len() as int) =~= self@);
        out
    }
}

impl Correlator {
    /// Begins the wait for the result of the bundle `identity`. Silence of
    /// `poll_timeout_ms` leads to a liveness probe; the wait as a whole is
    /// given up after `deadline_ms`.
    pub fn new(identity: BundleIdentity, poll_timeout_ms: u64, deadline_ms: u64) -> (r: Correlator)
        ensures
            r@ == CorrelatorView::start(identity@, poll_timeout_ms, deadline_ms),
            r@.well_formed(),
    {
        Correlator {
            identity,
            state: WaitState::Submitted,
            results_open: true,
            pending_open: true,
            poll_timeout_ms,
            deadline_ms,
        }
    }

    /// Where the wait stands.
    pub fn state(&self) -> (r: &WaitState)
        ensures
            r@ == self@.state,
    {
        &self.state
    }

    /// The bundle whose result is awaited.
    pub fn identity(&self) -> (r: &BundleIdentity)
        ensures
            r@ == self@.identity,
    {
        &self.identity
    }

    /// Whether the wait is over.
    pub fn is_terminal(&self) -> (r: bool)
        ensures
            r == self@.state.is_terminal(),
    {
        match self.state {
            WaitState::Submitted => false,
            WaitState::Probing => false,
            _ => true,
        }
    }

    /// Whether the bundle-result subscription is held.
    pub fn results_open(&self) -> (r: bool)
        ensures
            r == self@.results_open,
    {
        self.results_open
    }

    /// Whether the pending-transaction subscription is held.
    pub fn pending_open(&self) -> (r: bool)
        ensures
            r == self@.pending_open,
    {
        self.pending_open
    }

    /// How the run ends, once the wait is over.
    pub fn end(&self) -> (r: Option<Result<FinalStatus, WorkflowError>>)
        ensures
            match r {
                Some(end) => self@.state.is_terminal() && end_view(end) == self@.state.end(),
                None => !self@.state.is_terminal(),
            },
    {
        match &self.state {
            WaitState::Submitted => None,
            WaitState::Probing => None,
            WaitState::Confirmed => Some(Ok(FinalStatus::Confirmed)),
            WaitState::Failed(reason) => Some(Ok(FinalStatus::Rejected(reason.clone()))),
            WaitState::ConnectionLost => Some(Ok(FinalStatus::ConnectionLost)),
            WaitState::DeadlineExceeded => Some(Ok(FinalStatus::DeadlineExceeded)),
            WaitState::ProbeFailed => Some(Err(WorkflowError::TransportError)),
        }
    }

    /// The longest the caller may await the next event.
    pub fn wait_budget(&self, elapsed_ms: u64) -> (r: u64)
        ensures
            r == self@.wait_budget(elapsed_ms),
    {
        if elapsed_ms >= self.deadline_ms {
            0
        } else if self.deadline_ms - elapsed_ms < self.poll_timeout_ms {
            self.deadline_ms - elapsed_ms
        } else {
            self.poll_timeout_ms
        }
    }

    /// Ends the wait in `state` and releases both subscriptions.
    fn finish(&mut self, state: WaitState) -> (action: CorrelatorAction)
        requires
            state@.is_terminal(),
        ensures
            (final(self)@, action@) == old(self)@.finish(state@),
            final(self)@.well_formed(),
    {
        self.state = state;
        self.results_open = false;
        self.pending_open = false;
        match self.end() {
            Some(end) => CorrelatorAction::Finish(end),
            None => CorrelatorAction::Ignore,
        }
    }

    /// Takes in one event, which arrived `elapsed_ms` after the wait began,
    /// and says what the caller does next.
    ///
    /// Once the wait is over every event is ignored. Before that, a
    /// decision about the awaited bundle, the end of either stream and a
    /// failed probe end the wait whatever the time. Any other event ends it
    /// where the deadline has passed; else a poll timeout asks for one
    /// probe, the probe's return goes back to waiting, a batch of pending
    /// transactions is surfaced, and a notification about another bundle is
    /// passed over.
    pub fn on_event(&mut self, event: CorrelatorEvent, elapsed_ms: u64) -> (action:
        CorrelatorAction)
        requires
            old(self)@.well_formed(),
        ensures
            (final(self)@, action@) == old(self)@.step(event@, elapsed_ms),
            final(self)@.well_formed(),
    {
        if self.is_terminal() {
            return CorrelatorAction::Ignore;
        }
        match event {
            CorrelatorEvent::BundleResult(result) => {
                let BundleResultEvent { identity, outcome } = result;
                if self.identity.same(&identity) {
                    let state = match outcome {
                        BundleOutcome::Accepted => WaitState::Confirmed,
                        BundleOutcome::Rejected(reason) => WaitState::Failed(reason),
                        BundleOutcome::Dropped => WaitState::Failed("dropped".to_owned()),
                    };
                    self.finish(state)
                } else if elapsed_ms >= self.deadline_ms {
                    self.finish(WaitState::DeadlineExceeded)
                } else {
                    CorrelatorAction::Wait { timeout_ms: self.wait_budget(elapsed_ms) }
                }
            },
            CorrelatorEvent::ResultStreamEnded => self.finish(WaitState::ConnectionLost),
            CorrelatorEvent::PendingStreamEnded => self.finish(WaitState::ConnectionLost),
            CorrelatorEvent::ProbeFailed => self.finish(WaitState::ProbeFailed),
            CorrelatorEvent::PendingTransactions(batch) => {
                if elapsed_ms >= self.deadline_ms {
                    self.finish(WaitState::DeadlineExceeded)
                } else {
                    CorrelatorAction::Surface {
                        transactions: batch.surface(),
                        timeout_ms: self.wait_budget(elapsed_ms),
                    }
                }
            },
            CorrelatorEvent::PollTimeout => {
                if elapsed_ms >= self.deadline_ms {
                    self.finish(WaitState::DeadlineExceeded)
                } else {
                    self.state = WaitState::Probing;
                    CorrelatorAction::Probe
                }
            },
            CorrelatorEvent::ProbeCompleted => {
                if elapsed_ms >= self.deadline_ms {
                    self.finish(WaitState::DeadlineExceeded)
                } else {
                    self.state = WaitState::Submitted;
                    CorrelatorAction::Wait { timeout_ms: self.wait_budget(elapsed_ms) }
                }
            },
        }
    }
}

/// An event together with the time, since the wait began, at which it
/// arrived.
pub struct TimedEvent {
    pub event: EventView,
    pub elapsed_ms: u64,
}

impl CorrelatorView {
    /// The correlator after a sequence of events.
    pub open spec fn run(self, events: Seq<TimedEvent>) -> Self
        decreases events.len(),
    {
        if events.len() == 0 {
            self
        } else {
            self.run(events.drop_last()).step(events.last().event, events.last().elapsed_ms).0
        }
    }

    /// How many probes the correlator asks for during a sequence of events.
    pub open spec fn probes_during(self, events: Seq<TimedEvent>) -> nat
        decreases events.len(),
    {
        if events.len() == 0 {
            0
        } else {
            let asked = self.run(events.drop_last()).step(
                events.last().event,
                events.last().elapsed_ms,
            ).1;
            self.probes_during(events.drop_last()) + if asked is Probe {
                1nat
            } else {
                0nat
            }
        }
    }
}

/// How many of the events are poll timeouts.
pub open spec fn timeouts_in(events: Seq<TimedEvent>) -> nat
    decreases events.len(),
{
    if events.len() == 0 {
        0
    } else {
        timeouts_in(events.drop_last()) + if events.last().event is PollTimeout {
            1nat
        } else {
            0nat
        }
    }
}

/// Whether nothing arrives on either stream during the events, and all of
/// them fall before the deadline: each is a poll timeout or the return of a
/// probe.
pub open spec fn silent(events: Seq<TimedEvent>, deadline_ms: u64) -> bool {
    forall|i: int|
        0 <= i < events.len() ==> {
            &&& ((#[trigger] events[i]).event is PollTimeout || events[i].event is ProbeCompleted)
            &&& events[i].elapsed_ms < deadline_ms
        }
}

/// Every step keeps the subscriptions in line with the state, and leaves
/// the identity, the poll timeout and the deadline as they were.
pub proof fn lemma_step_keeps_well_formed(c: CorrelatorView, event: EventView, elapsed_ms: u64)
    requires
        c.well_formed(),
    ensures
        c.step(event, elapsed_ms).0.well_formed(),
        c.step(event, elapsed_ms).0.identity == c.identity,
        c.step(event, elapsed_ms).0.poll_timeout_ms == c.poll_timeout_ms,
        c.step(event, elapsed_ms).0.deadline_ms == c.deadline_ms,
{
}

/// Once the wait is over, no event changes anything: a duplicate or late
/// notification for a decided bundle is ignored.
pub proof fn lemma_terminal_is_final(c: CorrelatorView, event: EventView, elapsed_ms: u64)
    requires
        c.state.is_terminal(),
    ensures
        c.step(event, elapsed_ms) == (c, ActionView::Ignore),
{
}

/// An acceptance of the awaited bundle confirms it, releases both
/// subscriptions and ends the wait: whatever comes after is ignored.
pub proof fn lemma_accepted_confirms(
    c: CorrelatorView,
    result: ResultEventView,
    elapsed_ms: u64,
    later: EventView,
    later_ms: u64,
)
    requires
        !c.state.is_terminal(),
        result.identity == c.identity,
        result.outcome is Accepted,
    ensures
        ({
            let (next, action) = c.step(EventView::BundleResult(result), elapsed_ms);
            &&& next.state == WaitStateView::Confirmed
            &&& action == ActionView::Finish(Ok(FinalStatusView::Confirmed))
            &&& !next.results_open
            &&& !next.pending_open
            &&& next.step(later, later_ms) == (next, ActionView::Ignore)
        }),
{
}

/// A rejection of the awaited bundle fails it with the relay's reason.
pub proof fn lemma_rejected_fails(c: CorrelatorView, result: ResultEventView, elapsed_ms: u64)
    requires
        !c.state.is_terminal(),
        result.identity == c.identity,
        result.outcome is Rejected,
    ensures
        ({
            let (next, action) = c.step(EventView::BundleResult(result), elapsed_ms);
            &&& next.state == WaitStateView::Failed(result.outcome->Rejected_0)
            &&& action == ActionView::Finish(
                Ok(FinalStatusView::Rejected(result.outcome->Rejected_0)),
            )
            &&& !next.results_open
            &&& !next.pending_open
        }),
{
}

/// A notification about another bundle decides nothing.
pub proof fn lemma_other_bundle_is_passed_over(
    c: CorrelatorView,
    result: ResultEventView,
    elapsed_ms: u64,
)
    requires
        !c.state.is_terminal(),
        result.identity != c.identity,
        elapsed_ms < c.deadline_ms,
    ensures
        c.step(EventView::BundleResult(result), elapsed_ms) == (
            c,
            ActionView::Wait { timeout_ms: c.wait_budget(elapsed_ms) },
        ),
{
}

/// The end of either stream during the wait yields a lost connection, and
/// neither subscription stays held.
pub proof fn lemma_stream_end_loses_connection(c: CorrelatorView, event: EventView, elapsed_ms: u64)
    requires
        !c.state.is_terminal(),
        event is ResultStreamEnded || event is PendingStreamEnded,
    ensures
        ({
            let (next, action) = c.step(event, elapsed_ms);
            &&& next.state == WaitStateView::ConnectionLost
            &&& action == ActionView::Finish(Ok(FinalStatusView::ConnectionLost))
            &&& !next.results_open
            &&& !next.pending_open
        }),
{
}

/// A batch of pending transactions never changes where the wait stands:
/// before the deadline it is surfaced, the malformed packets left out, and
/// the correlator stays as it was.
pub proof fn lemma_pending_is_a_side_channel(
    c: CorrelatorView,
    packets: Seq<Option<Seq<Seq<u8>>>>,
    elapsed_ms: u64,
)
    requires
        !c.state.is_terminal(),
        elapsed_ms < c.deadline_ms,
    ensures
        c.step(EventView::PendingTransactions(packets), elapsed_ms) == (
            c,
            ActionView::Surface {
                transactions: decoded(packets),
                timeout_ms: c.wait_budget(elapsed_ms),
            },
        ),
{
}

/// While both streams stay silent and the deadline has not passed, the
/// correlator asks for exactly one probe per poll timeout and the wait
/// goes on: it stands at `Probing` after a timeout and is back at
/// `Submitted` after the probe's return.
pub proof fn lemma_one_probe_per_timeout(c: CorrelatorView, events: Seq<TimedEvent>)
    requires
        c.well_formed(),
        !c.state.is_terminal(),
        silent(events, c.deadline_ms),
    ensures
        c.probes_during(events) == timeouts_in(events),
        !c.run(events).state.is_terminal(),
        c.run(events).well_formed(),
        c.run(events).deadline_ms == c.deadline_ms,
        events.len() > 0 && events.last().event is PollTimeout ==> c.run(events).state
            == WaitStateView::Probing,
        events.len() > 0 && events.last().event is ProbeCompleted ==> c.run(events).state
            == WaitStateView::Submitted,
    decreases events.len(),
{
    if events.len() > 0 {
        let before = events.drop_last();
        assert forall|i: int| 0 <= i < before.len() implies {
            &&& ((#[trigger] before[i]).event is PollTimeout || before[i].event is ProbeCompleted)
            &&& before[i].elapsed_ms < c.deadline_ms
        } by {
            assert(before[i] == events[i]);
        }
        lemma_one_probe_per_timeout(c, before);
        assert(events.last() == events[events.len() - 1]);
    }
}

} // verus!
