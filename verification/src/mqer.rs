//! The message-queue client's lease accounting and drain protocol.
//!
//! The client counts the operations that are in flight: a publish or a
//! subscription that has borrowed a broker connection and not yet given it
//! back, and every consumer callback that is running. Shutdown first stops
//! the client from taking on new operations, and then waits until the
//! count is zero or a timeout has passed.
//!
//! Talking to the broker is the caller's business. What is decided here is
//! what the caller does next: [`Mqer`] holds the client's phase and the count, and a
//! [`ChannelOp`] walks a publish or a subscription through its stages. The
//! caller performs each stage and reports how it went.
use vstd::prelude::*;
use crate::error::{AppInnerError, InnerResult, MqerError};

verus! {

/// Seconds that shutdown waits for operations in flight.
pub const TIMEOUT: u64 = 5;

/// Seconds between two looks at the count while shutdown waits.
pub const POLL_INTERVAL: u64 = 1;

pub const NANOS_PER_SEC: u128 = 1_000_000_000;

/// Life of a queue client. `Stopped` is final.
#[derive(Clone, Copy, Debug, PartialEq, Eq, Structural)]
pub enum QueuePhase {
    Running,
    Draining,
    Stopped,
}

/// What shutdown tells its caller to do.
#[derive(Clone, Copy, Debug, PartialEq, Eq, Structural)]
pub enum ShutdownStep {
    /// Operations are in flight and time is left: sleep so many nanoseconds
    /// and ask again. The sleep never reaches past the timeout.
    Wait(u64),
    /// Nothing is in flight any more.
    Drained,
    /// Time is up. So many operations were still in flight; the caller logs
    /// a warning and goes on.
    TimedOut(usize),
}

/// What arrived from the broker for a subscription.
#[derive(Clone, Copy, Debug, PartialEq, Eq, Structural)]
pub enum DeliveryEvent {
    /// A message.
    Message,
    /// The consumer was cancelled.
    Cancelled,
    /// The broker reported an error.
    Failed,
}

/// What to do with a delivery.
#[derive(Clone, Copy, Debug, PartialEq, Eq, Structural)]
pub enum DeliveryAction {
    /// Run the callback, acknowledge, then call [`Mqer::finish_delivery`].
    Process,
    /// The client is draining: leave the message unacknowledged, so that the
    /// broker delivers it again.
    Skip,
    /// Log that consuming failed.
    Report,
}

/// The two operations that borrow a connection.
#[derive(Clone, Copy, Debug, PartialEq, Eq, Structural)]
pub enum OpKind {
    Send,
    Receive,
}

/// The broker call that an operation is waiting for.
#[derive(Clone, Copy, Debug, PartialEq, Eq, Structural)]
pub enum ChannelStage {
    /// Borrow a connection from the pool.
    Borrow,
    /// Open a channel on the connection.
    CreateChannel,
    /// Declare the queue; the broker creates it if it is absent.
    DeclareQueue,
    /// Publish the payload.
    Publish,
    /// Wait for the broker to confirm the publish.
    Confirm,
    /// Register the consumer and hand it the delegate.
    Consume,
}

/// How a broker call went.
#[derive(Clone, Debug, PartialEq, Eq)]
pub enum StageOutcome {
    Done,
    Failed(String),
}

/// The mathematical state of a queue client.
pub struct QueueState {
    pub phase: QueuePhase,
    pub in_flight: nat,
}

/// The mathematical state of an operation under way.
pub struct OpState {
    pub kind: OpKind,
    pub stage: ChannelStage,
}

impl QueueState {
    pub open spec fn initial() -> QueueState {
        QueueState { phase: QueuePhase::Running, in_flight: 0 }
    }

    pub open spec fn running(self) -> bool {
        self.phase == QueuePhase::Running
    }

    /// Asking for a lease. The attempt is counted first and the phase is
    /// looked at second; an attempt that finds the client shutting down is
    /// taken off the count again, so it leaves the state as it was.
    pub open spec fn acquire(self) -> (QueueState, bool) {
        let counted = QueueState { in_flight: self.in_flight + 1, ..self };
        if counted.running() {
            (counted, true)
        } else {
            (counted.release(), false)
        }
    }

    /// Giving a lease back.
    pub open spec fn release(self) -> QueueState {
        QueueState {
            in_flight: if self.in_flight > 0 {
                (self.in_flight - 1) as nat
            } else {
                0
            },
            ..self
        }
    }

    /// A delivery for a subscription: a message is counted like a lease,
    /// anything else changes nothing.
    pub open spec fn deliver(self, event: DeliveryEvent) -> (QueueState, DeliveryAction) {
        match event {
            DeliveryEvent::Message => {
                let (next, granted) = self.acquire();
                (
                    next,
                    if granted {
                        DeliveryAction::Process
                    } else {
                        DeliveryAction::Skip
                    },
                )
            },
            _ => (self, DeliveryAction::Report),
        }
    }

    /// Whether shutdown has waited long enough: the timeout is up.
    pub open spec fn timed_out(elapsed_nanos: nat, timeout_secs: nat) -> bool {
        elapsed_nanos >= timeout_secs * NANOS_PER_SEC
    }

    /// How long shutdown sleeps before it looks again: `POLL_INTERVAL`
    /// seconds, or what is left of the timeout where that is less.
    pub open spec fn wait_nanos(elapsed_nanos: nat, timeout_secs: nat) -> nat {
        let left = (timeout_secs * NANOS_PER_SEC - elapsed_nanos) as nat;
        if left < POLL_INTERVAL * NANOS_PER_SEC {
            left
        } else {
            (POLL_INTERVAL * NANOS_PER_SEC) as nat
        }
    }

    /// One look of shutdown at the state. The client leaves the running
    /// phase whatever happens. It is stopped once nothing is in flight or time is
    /// up; until then the caller is told to wait.
    pub open spec fn shutdown(self, elapsed_nanos: nat, timeout_secs: nat) -> (
        QueueState,
        ShutdownStep,
    ) {
        if self.in_flight == 0 {
            (QueueState { phase: QueuePhase::Stopped, ..self }, ShutdownStep::Drained)
        } else if self.phase == QueuePhase::Stopped || Self::timed_out(
            elapsed_nanos,
            timeout_secs,
        ) {
            (
                QueueState { phase: QueuePhase::Stopped, ..self },
                ShutdownStep::TimedOut(self.in_flight as usize),
            )
        } else {
            (
                QueueState { phase: QueuePhase::Draining, ..self },
                ShutdownStep::Wait(Self::wait_nanos(elapsed_nanos, timeout_secs) as u64),
            )
        }
    }
}

impl OpState {
    /// Every operation starts by borrowing a connection.
    pub open spec fn start(kind: OpKind) -> OpState {
        OpState { kind, stage: ChannelStage::Borrow }
    }

    /// The stages of a publish are borrow, create channel, declare queue,
    /// publish, confirm; those of a subscription are borrow, create channel,
    /// declare queue, consume.
    pub open spec fn well_formed(self) -> bool {
        match self.kind {
            OpKind::Send => self.stage != ChannelStage::Consume,
            OpKind::Receive => self.stage != ChannelStage::Publish && self.stage
                != ChannelStage::Confirm,
        }
    }

    /// The stage that follows a stage that went well, or `None` after the
    /// last one.
    pub open spec fn next_stage(self) -> Option<ChannelStage> {
        match self.stage {
            ChannelStage::Borrow => Some(ChannelStage::CreateChannel),
            ChannelStage::CreateChannel => Some(ChannelStage::DeclareQueue),
            ChannelStage::DeclareQueue => Some(
                match self.kind {
                    OpKind::Send => ChannelStage::Publish,
                    OpKind::Receive => ChannelStage::Consume,
                },
            ),
            ChannelStage::Publish => Some(ChannelStage::Confirm),
            ChannelStage::Confirm => None,
            ChannelStage::Consume => None,
        }
    }

    /// Stages left, this one included.
    pub open spec fn stages_left(self) -> nat {
        match self.stage {
            ChannelStage::Borrow => match self.kind {
                OpKind::Send => 5,
                OpKind::Receive => 4,
            },
            ChannelStage::CreateChannel => match self.kind {
                OpKind::Send => 4,
                OpKind::Receive => 3,
            },
            ChannelStage::DeclareQueue => match self.kind {
                OpKind::Send => 3,
                OpKind::Receive => 2,
            },
            ChannelStage::Publish => 2,
            ChannelStage::Confirm => 1,
            ChannelStage::Consume => 1,
        }
    }

    /// The error that a failed stage ends the operation with: a failure to
    /// borrow is the pool's, any other is the broker's.
    pub open spec fn failure(self, reason: String) -> AppInnerError {
        match self.stage {
            ChannelStage::Borrow => AppInnerError::MQError(MqerError::PoolError(reason)),
            _ => AppInnerError::MQError(MqerError::ExeError(reason)),
        }
    }

    /// One report from the caller. The operation goes on to its next stage
    /// when the stage went well and was not the last. Otherwise it ends, and
    /// its lease is given back: on success and on failure alike.
    pub open spec fn advance(self, queue: QueueState, went_well: bool) -> (
        QueueState,
        Option<OpState>,
    ) {
        if went_well && self.next_stage() is Some {
            (queue, Some(OpState { stage: self.next_stage().unwrap(), ..self }))
        } else {
            (queue.release(), None)
        }
    }

    /// The operation driven by a list of reports, one for each stage, until
    /// it ends or the reports run out.
    pub open spec fn drive(self, queue: QueueState, reports: Seq<bool>) -> (QueueState, Option<OpState>)
        decreases reports.len(),
    {
        if reports.len() == 0 {
            (queue, Some(self))
        } else {
            let (next_queue, next_op) = self.advance(queue, reports[0]);
            match next_op {
                Some(op) => op.drive(next_queue, reports.drop_first()),
                None => (next_queue, None),
            }
        }
    }
}

impl StageOutcome {
    pub open spec fn went_well(self) -> bool {
        self is Done
    }
}

/// The phase and the count of a queue client.
pub struct Mqer {
    phase: QueuePhase,
    count: usize,
}

impl View for Mqer {
    type V = QueueState;

    closed spec fn view(&self) -> QueueState {
        QueueState { phase: self.phase, in_flight: self.count as nat }
    }
}

/// A publish or a subscription under way. It holds one lease from the time
/// it is handed out until [`Mqer::advance`] reports that it has ended.
pub struct ChannelOp {
    kind: OpKind,
    stage: ChannelStage,
}

impl View for ChannelOp {
    type V = OpState;

    closed spec fn view(&self) -> OpState {
        OpState { kind: self.kind, stage: self.stage }
    }
}

/// What [`Mqer::advance`] and the two functions that start an operation
/// answer.
pub enum ChannelStep {
    /// Make the broker call that the operation's stage names, then report.
    Continue(ChannelOp),
    /// The operation has ended and its lease is back.
    Finished(InnerResult<()>),
}

impl ChannelOp {
    #[verifier::type_invariant]
    spec fn stage_fits_kind(self) -> bool {
        self@.well_formed()
    }

    pub fn kind(&self) -> (r: OpKind)
        ensures
            r == self@.kind,
    {
        self.kind
    }

    /// The broker call to make next.
    pub fn stage(&self) -> (r: ChannelStage)
        ensures
            r == self@.stage,
            self@.well_formed(),
    {
        proof {
            use_type_invariant(self);
        }
        self.stage
    }
}

/// The text of the error that meets an operation when the client is
/// shutting down.
pub open spec fn closing_message() -> Seq<char> {
    "Channel is going to be closed"@
}

impl Mqer {
    /// A running client with nothing in flight.
    pub fn init() -> (r: Mqer)
        ensures
            r@ == QueueState::initial(),
    {
        Mqer { phase: QueuePhase::Running, count: 0 }
    }

    pub fn is_running(&self) -> (r: bool)
        ensures
            r == self@.running(),
    {
        self.phase == QueuePhase::Running
    }

    pub fn phase(&self) -> (r: QueuePhase)
        ensures
            r == self@.phase,
    {
        self.phase
    }

    /// Operations in flight.
    pub fn in_flight(&self) -> (r: usize)
        ensures
            r == self@.in_flight,
    {
        self.count
    }

    fn increase_count(&mut self)
        requires
            old(self)@.in_flight < usize::MAX,
        ensures
            final(self)@ == (QueueState { in_flight: old(self)@.in_flight + 1, ..old(self)@ }),
    {
        self.count = self.count + 1;
    }

    fn decrease_count(&mut self)
        ensures
            final(self)@ == old(self)@.release(),
    {
        if self.count > 0 {
            self.count = self.count - 1;
        }
    }

    /// Asks for a lease. `true` lets the caller in, who borrows a connection
    /// and owes one [`Mqer::release`]. `false` means that the client is
    /// shutting down: the caller borrows nothing and owes nothing.
    pub fn get_conn(&mut self) -> (granted: bool)
        requires
            old(self)@.in_flight < usize::MAX,
        ensures
            (final(self)@, granted) == old(self)@.acquire(),
            granted == old(self)@.running(),
            !granted ==> final(self)@ == old(self)@,
    {
        self.increase_count();
        if !self.is_running() {
            self.decrease_count();
            return false;
        }
        true
    }

    /// Gives a lease back.
    pub fn release(&mut self)
        ensures
            final(self)@ == old(self)@.release(),
    {
        self.decrease_count();
    }

    /// Decides what to do with a delivery. After `Process` the caller owes
    /// one [`Mqer::finish_delivery`], after the callback has returned and
    /// the message is acknowledged.
    pub fn on_new_delivery(&mut self, event: DeliveryEvent) -> (action: DeliveryAction)
        requires
            old(self)@.in_flight < usize::MAX,
        ensures
            (final(self)@, action) == old(self)@.deliver(event),
            action == DeliveryAction::Process <==> event == DeliveryEvent::Message && old(
                self,
            )@.running(),
            action != DeliveryAction::Process ==> final(self)@ == old(self)@,
    {
        match event {
            DeliveryEvent::Message => {
                if self.get_conn() {
                    DeliveryAction::Process
                } else {
                    DeliveryAction::Skip
                }
            },
            _ => DeliveryAction::Report,
        }
    }

    /// Ends the processing of a delivery.
    pub fn finish_delivery(&mut self)
        ensures
            final(self)@ == old(self)@.release(),
    {
        self.decrease_count();
    }

    /// One look of shutdown at the client, `elapsed_nanos` after shutdown
    /// began. For as long as the answer is `Wait`, the caller sleeps the
    /// time it names and calls again. A caller that sleeps no longer than it
    /// is told is never asleep when the timeout is up, so shutdown takes no
    /// longer than the timeout.
    pub fn graceful_shutdown(&mut self, elapsed_nanos: u128, timeout_secs: u64) -> (step:
        ShutdownStep)
        ensures
            (final(self)@, step) == old(self)@.shutdown(elapsed_nanos as nat, timeout_secs as nat),
            !final(self)@.running(),
            final(self)@.in_flight == old(self)@.in_flight,
            step matches ShutdownStep::Wait(nanos) ==> 0 < nanos <= POLL_INTERVAL * NANOS_PER_SEC
                && elapsed_nanos + nanos <= timeout_secs * NANOS_PER_SEC,
            step is Wait <==> old(self)@.in_flight > 0 && old(self)@.phase != QueuePhase::Stopped
                && elapsed_nanos < timeout_secs * NANOS_PER_SEC,
            !(step is Wait) <==> final(self)@.phase == QueuePhase::Stopped,
            step == ShutdownStep::Drained <==> old(self)@.in_flight == 0,
            step matches ShutdownStep::TimedOut(n) ==> n == old(self)@.in_flight && n > 0,
    {
        let limit: u128 = (timeout_secs as u128) * NANOS_PER_SEC;
        if self.count == 0 {
            self.phase = QueuePhase::Stopped;
            ShutdownStep::Drained
        } else if self.phase == QueuePhase::Stopped || elapsed_nanos >= limit {
            self.phase = QueuePhase::Stopped;
            ShutdownStep::TimedOut(self.count)
        } else {
            self.phase = QueuePhase::Draining;
            let left: u128 = limit - elapsed_nanos;
            let interval: u128 = (POLL_INTERVAL as u128) * NANOS_PER_SEC;
            if left < interval {
                ShutdownStep::Wait(left as u64)
            } else {
                ShutdownStep::Wait(interval as u64)
            }
        }
    }

    fn begin(&mut self, kind: OpKind) -> (step: ChannelStep)
        requires
            old(self)@.in_flight < usize::MAX,
        ensures
            final(self)@ == old(self)@.acquire().0,
            old(self)@.running() ==> (step matches ChannelStep::Continue(op) && op@
                == OpState::start(kind)),
            !old(self)@.running() ==> (step matches ChannelStep::Finished(
                Err(AppInnerError::Anyhow(reason)),
            ) && reason@ == closing_message()),
    {
        if self.get_conn() {
            ChannelStep::Continue(ChannelOp { kind, stage: ChannelStage::Borrow })
        } else {
            ChannelStep::Finished(
                Err(AppInnerError::Anyhow("Channel is going to be closed".to_owned())),
            )
        }
    }

    /// Starts a publish. A running client counts it and asks the caller to
    /// borrow a connection; a client that is shutting down refuses with an
    /// error and counts nothing.
    pub fn basic_send(&mut self) -> (step: ChannelStep)
        requires
            old(self)@.in_flight < usize::MAX,
        ensures
            final(self)@ == old(self)@.acquire().0,
            old(self)@.running() ==> (step matches ChannelStep::Continue(op) && op@
                == OpState::start(OpKind::Send)),
            !old(self)@.running() ==> final(self)@ == old(self)@,
            !old(self)@.running() ==> (step matches ChannelStep::Finished(
                Err(AppInnerError::Anyhow(reason)),
            ) && reason@ == closing_message()),
    {
        self.begin(OpKind::Send)
    }

    /// Starts a subscription, as [`Mqer::basic_send`] starts a publish.
    pub fn basic_receive(&mut self) -> (step: ChannelStep)
        requires
            old(self)@.in_flight < usize::MAX,
        ensures
            final(self)@ == old(self)@.acquire().0,
            old(self)@.running() ==> (step matches ChannelStep::Continue(op) && op@
                == OpState::start(OpKind::Receive)),
            !old(self)@.running() ==> final(self)@ == old(self)@,
            !old(self)@.running() ==> (step matches ChannelStep::Finished(
                Err(AppInnerError::Anyhow(reason)),
            ) && reason@ == closing_message()),
    {
        self.begin(OpKind::Receive)
    }

    /// Takes the caller's report on the broker call that `op` was waiting
    /// for. The operation either goes on to its next stage, with the count
    /// untouched, or ends: with `Ok` after its last stage, with the error of
    /// the failed stage otherwise. An operation that ends gives its lease
    /// back.
    pub fn advance(&mut self, op: ChannelOp, outcome: StageOutcome) -> (step: ChannelStep)
        ensures
            final(self)@ == op@.advance(old(self)@, outcome.went_well()).0,
            match op@.advance(old(self)@, outcome.went_well()).1 {
                Some(next) => step matches ChannelStep::Continue(next_op) && next_op@ == next,
                None => match outcome {
                    StageOutcome::Done => step matches ChannelStep::Finished(Ok(_)),
                    StageOutcome::Failed(reason) => step == ChannelStep::Finished(
                        Err(op@.failure(reason)),
                    ),
                },
            },
    {
        proof {
            use_type_invariant(&op);
        }
        let kind = op.kind;
        let stage = op.stage;
        match outcome {
            StageOutcome::Failed(reason) => {
                self.decrease_count();
                let error = match stage {
                    ChannelStage::Borrow => MqerError::PoolError(reason),
                    _ => MqerError::ExeError(reason),
                };
                ChannelStep::Finished(Err(AppInnerError::MQError(error)))
            },
            StageOutcome::Done => {
                let next = match stage {
                    ChannelStage::Borrow => Some(ChannelStage::CreateChannel),
                    ChannelStage::CreateChannel => Some(ChannelStage::DeclareQueue),
                    ChannelStage::DeclareQueue => match kind {
                        OpKind::Send => Some(ChannelStage::Publish),
                        OpKind::Receive => Some(ChannelStage::Consume),
                    },
                    ChannelStage::Publish => Some(ChannelStage::Confirm),
                    ChannelStage::Confirm => None,
                    ChannelStage::Consume => None,
                };
                match next {
                    Some(stage) => ChannelStep::Continue(ChannelOp { kind, stage }),
                    None => {
                        self.decrease_count();
                        ChannelStep::Finished(Ok(()))
                    },
                }
            },
        }
    }
}

/// A client that has left the running phase never returns to it: no lease
/// request, release, delivery or look of shutdown brings it back.
pub proof fn lemma_shutdown_is_final(
    queue: QueueState,
    event: DeliveryEvent,
    elapsed_nanos: nat,
    timeout_secs: nat,
)
    requires
        !queue.running(),
    ensures
        !queue.acquire().0.running(),
        !queue.release().running(),
        !queue.deliver(event).0.running(),
        !queue.shutdown(elapsed_nanos, timeout_secs).0.running(),
{
}

/// After shutdown has looked at the client once, a request for a lease is
/// refused and leaves the count as it found it.
pub proof fn lemma_no_lease_after_shutdown(queue: QueueState, elapsed_nanos: nat, timeout_secs: nat)
    ensures
        ({
            let closed = queue.shutdown(elapsed_nanos, timeout_secs).0;
            closed.acquire() == (closed, false) && closed.in_flight == queue.in_flight
        }),
{
}

/// Shutdown never waits past its timeout. Once `timeout_secs` seconds have
/// passed, it stops the client whatever is in flight, and reports what was.
/// Before that, a wait ends at the timeout at the latest.
pub proof fn lemma_shutdown_is_bounded(queue: QueueState, elapsed_nanos: nat, timeout_secs: nat)
    ensures
        QueueState::timed_out(elapsed_nanos, timeout_secs) ==> {
            &&& queue.shutdown(elapsed_nanos, timeout_secs).0.phase == QueuePhase::Stopped
            &&& queue.shutdown(elapsed_nanos, timeout_secs).1 == if queue.in_flight == 0 {
                ShutdownStep::Drained
            } else {
                ShutdownStep::TimedOut(queue.in_flight as usize)
            }
        },
        queue.shutdown(elapsed_nanos, timeout_secs).1 is Wait ==> {
            &&& 0 < QueueState::wait_nanos(elapsed_nanos, timeout_secs)
            &&& elapsed_nanos + QueueState::wait_nanos(elapsed_nanos, timeout_secs) <= timeout_secs
                * NANOS_PER_SEC
        },
{
}

/// An operation ends after as many reports as it has stages left, or
/// sooner, and by then has given back exactly the lease it held: the count
/// is one lower than when the reports began.
pub proof fn lemma_operation_gives_lease_back(op: OpState, queue: QueueState, reports: Seq<bool>)
    requires
        op.well_formed(),
        queue.in_flight > 0,
        reports.len() >= op.stages_left(),
    ensures
        op.drive(queue, reports) == (queue.release(), None::<OpState>),
    decreases reports.len(),
{
    let (next_queue, next_op) = op.advance(queue, reports[0]);
    match next_op {
        Some(next) => {
            lemma_operation_gives_lease_back(next, next_queue, reports.drop_first());
        },
        None => {},
    }
}

/// A publish or a subscription, from the request for its lease to its end,
/// leaves the count as it found it, however its stages went.
pub proof fn lemma_operation_restores_count(kind: OpKind, queue: QueueState, reports: Seq<bool>)
    requires
        reports.len() >= OpState::start(kind).stages_left(),
    ensures
        ({
            let (entered, granted) = queue.acquire();
            if granted {
                OpState::start(kind).drive(entered, reports) == (queue, None::<OpState>)
            } else {
                entered == queue
            }
        }),
{
    let (entered, granted) = queue.acquire();
    if granted {
        lemma_operation_gives_lease_back(OpState::start(kind), entered, reports);
    }
}

} // verus!
