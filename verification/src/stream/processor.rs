//! The update processor: the decisions of the consumer that drains a
//! channel, as a machine that is told what happened and answers what to do
//! next. It touches neither the store nor the persistence layer itself.
use crate::services::product::model::{NewProduct, Product};
use crate::stream::event::{StreamChannel, Update, UpdateStreamEvent};
use crate::stream::store::RETRY_LIMIT;
use vstd::prelude::*;

verus! {

/// Seconds after which an idle processor that was last seen active looks at
/// the queue again without having been woken.
pub const POLL_INTERVAL_SECS: u64 = 5;

/// The key under which the store keeps the processor's run flag.
pub const ACTIVE_FLAG_KEY: &'static str = "update_processor_active";

/// A call into the persistence layer.
#[derive(Debug, PartialEq)]
pub enum PersistenceCall {
    /// Store a product that does not exist yet.
    ApplyNewEntity(NewProduct),
    /// Overwrite a stored product.
    ApplyUpdatedEntity(Product),
}

/// The call that applies `update`.
pub open spec fn dispatch_of(update: Update) -> PersistenceCall {
    match update {
        Update::NewProduct(product) => PersistenceCall::ApplyNewEntity(product),
        Update::UpdateProduct(product) => PersistenceCall::ApplyUpdatedEntity(product),
    }
}

/// Maps an update to the call that applies it.
pub fn dispatch(update: &Update) -> (call: PersistenceCall)
    ensures
        call == dispatch_of(*update),
{
    match update {
        Update::NewProduct(product) => PersistenceCall::ApplyNewEntity(product.clone()),
        Update::UpdateProduct(product) => PersistenceCall::ApplyUpdatedEntity(product.clone()),
    }
}

/// What becomes of an event once the persistence layer has answered.
#[derive(Debug, PartialEq)]
pub enum Verdict {
    /// The update was applied; the event is done with.
    Applied,
    /// The application failed; the event, one failure older, goes back into
    /// the queue.
    Retry(UpdateStreamEvent),
    /// The application failed once too often; the event, one failure older,
    /// is given up.
    Exhausted(UpdateStreamEvent),
}

/// `event` after one more failed application. The count stops at the
/// largest number that it can hold.
pub open spec fn failed_once_more(event: UpdateStreamEvent) -> UpdateStreamEvent {
    UpdateStreamEvent {
        update: event.update,
        attempt_count: if event.attempt_count < usize::MAX {
            (event.attempt_count + 1) as usize
        } else {
            event.attempt_count
        },
    }
}

/// The retry policy: a success settles the event; a failure sends it back
/// while its failures, this one included, stay under `RETRY_LIMIT`.
pub open spec fn verdict_of(event: UpdateStreamEvent, success: bool) -> Verdict {
    if success {
        Verdict::Applied
    } else if event.attempt_count + 1 < RETRY_LIMIT {
        Verdict::Retry(failed_once_more(event))
    } else {
        Verdict::Exhausted(failed_once_more(event))
    }
}

/// What woke the processor.
#[derive(Debug, PartialEq, Eq, Structural)]
pub enum Wake {
    /// A notification from inside the process.
    Notified,
    /// A signal that came in over the channel from outside.
    Signalled,
    /// The poll interval ran out.
    TimedOut,
}

impl Clone for Wake {
    fn clone(&self) -> (copy: Self)
        ensures
            copy == *self,
    {
        match self {
            Wake::Notified => Wake::Notified,
            Wake::Signalled => Wake::Signalled,
            Wake::TimedOut => Wake::TimedOut,
        }
    }
}

impl Copy for Wake {

}

/// What the processor is told.
#[derive(Debug, PartialEq)]
pub enum Signal {
    /// The processor has been set up and may begin.
    Started,
    /// The wait is over.
    Woken(Wake),
    /// The run flag as the store has it; `None` where the store gave no
    /// answer.
    Flag(Option<bool>),
    /// The length of the queue; `None` where the store gave no answer.
    Length(Option<usize>),
    /// What a pop took from the queue, in the order in which it left; `None`
    /// in place of an entry that could not be read as an event.
    Batch(Vec<Option<UpdateStreamEvent>>),
    /// Whether the persistence layer applied the update.
    Applied(bool),
    /// The last action, which yields no value, has been carried out.
    Done,
    /// The host shuts down: the processor is to stop at its wait point.
    Stop,
}

/// A signal with its contents as mathematical values.
pub enum SignalView {
    Started,
    Woken(Wake),
    Flag(Option<bool>),
    Length(Option<usize>),
    Batch(Seq<Option<UpdateStreamEvent>>),
    Applied(bool),
    Done,
    Stop,
}

impl View for Signal {
    type V = SignalView;

    open spec fn view(&self) -> SignalView {
        match *self {
            Signal::Started => SignalView::Started,
            Signal::Woken(wake) => SignalView::Woken(wake),
            Signal::Flag(flag) => SignalView::Flag(flag),
            Signal::Length(length) => SignalView::Length(length),
            Signal::Batch(entries) => SignalView::Batch(entries@),
            Signal::Applied(success) => SignalView::Applied(success),
            Signal::Done => SignalView::Done,
            Signal::Stop => SignalView::Stop,
        }
    }
}

/// What the processor asks for.
#[derive(Debug, PartialEq)]
pub enum Action {
    /// Write the run flag. Answered by `Done`.
    SetFlag(bool),
    /// Read the run flag. Answered by `Flag`.
    GetFlag,
    /// Read the length of the queue. Answered by `Length`.
    GetLength,
    /// Pop at most this many events from the tail of the queue. Answered by
    /// `Batch`.
    PopTail(usize),
    /// Make this call into the persistence layer; `attempt` is the number of
    /// times the event has failed before. Answered by `Applied`.
    Apply { call: PersistenceCall, attempt: usize },
    /// Push this event at the head of the queue. Answered by `Done`.
    PushHead(UpdateStreamEvent),
    /// Report that this event is given up. Answered by `Done`.
    ReportExhausted(UpdateStreamEvent),
    /// Report that an entry of the batch could not be read and is given up.
    /// Answered by `Done`.
    ReportMalformed,
    /// Record how long the batch took, from its `Batch` signal to now.
    /// Answered by `Done`.
    RecordBatch,
    /// Wait to be woken, for at most so many seconds where a number is
    /// given. Answered by `Woken`, or by `Stop`.
    Wait(Option<u64>),
    /// Nothing more: the processor has stopped. Not answered.
    Halt,
}

/// Where in its cycle the processor is: which answer it waits for.
#[derive(Debug, PartialEq, Eq, Structural)]
pub enum Phase {
    /// Not begun yet. Expects `Started`.
    Created,
    /// Looking whether the store has a run flag. Expects `Flag`.
    Starting,
    /// The store had no run flag; it is being set. Expects `Done`.
    Defaulting,
    /// At the wait point. Expects `Woken`.
    Waiting,
    /// Expects `Flag`.
    AwaitingFlag,
    /// Expects `Length`.
    AwaitingLength,
    /// Expects `Batch`.
    AwaitingBatch,
    /// A call into the persistence layer is under way. Expects `Applied`.
    AwaitingOutcome,
    /// A push or a report is under way. Expects `Done`.
    AwaitingAck,
    /// The batch's duration is being recorded. Expects `Done`.
    Recording,
    /// Stopped for good. Expects nothing.
    Stopped,
}

impl Clone for Phase {
    fn clone(&self) -> (copy: Self)
        ensures
            copy == *self,
    {
        match self {
            Phase::Created => Phase::Created,
            Phase::Starting => Phase::Starting,
            Phase::Defaulting => Phase::Defaulting,
            Phase::Waiting => Phase::Waiting,
            Phase::AwaitingFlag => Phase::AwaitingFlag,
            Phase::AwaitingLength => Phase::AwaitingLength,
            Phase::AwaitingBatch => Phase::AwaitingBatch,
            Phase::AwaitingOutcome => Phase::AwaitingOutcome,
            Phase::AwaitingAck => Phase::AwaitingAck,
            Phase::Recording => Phase::Recording,
            Phase::Stopped => Phase::Stopped,
        }
    }
}

impl Copy for Phase {

}

/// The run state as the processor last saw it in the store.
#[derive(Debug, PartialEq, Eq, Structural)]
pub enum Mode {
    /// Draining is permitted.
    Active,
    /// Draining is suspended.
    Paused,
}

impl Clone for Mode {
    fn clone(&self) -> (copy: Self)
        ensures
            copy == *self,
    {
        match self {
            Mode::Active => Mode::Active,
            Mode::Paused => Mode::Paused,
        }
    }
}

impl Copy for Mode {

}

/// What the processor remembers.
pub struct ProcessorState {
    pub phase: Phase,
    pub mode: Mode,
    /// The batch under way; empty between batches.
    pub batch: Seq<Option<UpdateStreamEvent>>,
    /// How many entries of the batch are done with.
    pub next: nat,
}

impl ProcessorState {
    /// The state of a processor that has not begun.
    pub open spec fn initial() -> ProcessorState {
        ProcessorState { phase: Phase::Created, mode: Mode::Active, batch: Seq::empty(), next: 0 }
    }

    /// The state at the wait point after the flag was seen as `mode`.
    pub open spec fn waiting(mode: Mode) -> ProcessorState {
        ProcessorState { phase: Phase::Waiting, mode, batch: Seq::empty(), next: 0 }
    }

    /// The mode that belongs to a value of the run flag.
    pub open spec fn mode_of(flag: bool) -> Mode {
        if flag {
            Mode::Active
        } else {
            Mode::Paused
        }
    }

    /// The wait that belongs to a mode: bounded by the poll interval while
    /// active, unbounded while paused.
    pub open spec fn wait_for(mode: Mode) -> Action {
        match mode {
            Mode::Active => Action::Wait(Some(POLL_INTERVAL_SECS)),
            Mode::Paused => Action::Wait(None),
        }
    }

    /// Turns to the next entry of the batch: an event is dispatched, an
    /// unreadable entry is reported, and after the last entry the batch is
    /// recorded.
    pub open spec fn advance(self) -> (ProcessorState, Action) {
        if self.next < self.batch.len() {
            match self.batch[self.next as int] {
                Some(event) => (
                    ProcessorState { phase: Phase::AwaitingOutcome, ..self },
                    Action::Apply {
                        call: dispatch_of(event.update),
                        attempt: event.attempt_count,
                    },
                ),
                None => (
                    ProcessorState { phase: Phase::AwaitingAck, ..self },
                    Action::ReportMalformed,
                ),
            }
        } else {
            (ProcessorState { phase: Phase::Recording, ..self }, Action::RecordBatch)
        }
    }

    /// One step of the processor: the state after `signal` and the action it
    /// asks for, or `None` where `signal` is not the answer that the state
    /// waits for.
    pub open spec fn step(self, signal: SignalView) -> Option<(ProcessorState, Action)> {
        match (self.phase, signal) {
            (Phase::Created, SignalView::Started) => Some(
                (ProcessorState { phase: Phase::Starting, ..self }, Action::GetFlag),
            ),
            (Phase::Starting, SignalView::Flag(flag)) => match flag {
                Some(value) => Some(
                    (Self::waiting(Self::mode_of(value)), Self::wait_for(Self::mode_of(value))),
                ),
                None => Some(
                    (ProcessorState { phase: Phase::Defaulting, ..self }, Action::SetFlag(true)),
                ),
            },
            (Phase::Defaulting, SignalView::Done) => Some(
                (Self::waiting(Mode::Active), Self::wait_for(Mode::Active)),
            ),
            (Phase::Waiting, SignalView::Woken(_)) => Some(
                (ProcessorState { phase: Phase::AwaitingFlag, ..self }, Action::GetFlag),
            ),
            (Phase::Waiting, SignalView::Stop) => Some(
                (ProcessorState { phase: Phase::Stopped, ..self }, Action::Halt),
            ),
            (Phase::AwaitingFlag, SignalView::Flag(flag)) => if flag == Some(true) {
                Some(
                    (
                        ProcessorState { phase: Phase::AwaitingLength, mode: Mode::Active, ..self },
                        Action::GetLength,
                    ),
                )
            } else {
                Some((Self::waiting(Mode::Paused), Self::wait_for(Mode::Paused)))
            },
            (Phase::AwaitingLength, SignalView::Length(length)) => match length {
                Some(n) if n > 0 => Some(
                    (ProcessorState { phase: Phase::AwaitingBatch, ..self }, Action::PopTail(n)),
                ),
                _ => Some((Self::waiting(Mode::Active), Self::wait_for(Mode::Active))),
            },
            (Phase::AwaitingBatch, SignalView::Batch(entries)) => Some(
                (ProcessorState { batch: entries, next: 0, ..self }).advance(),
            ),
            (Phase::AwaitingOutcome, SignalView::Applied(success)) => {
                if self.next < self.batch.len() && self.batch[self.next as int] is Some {
                    match verdict_of(self.batch[self.next as int]->0, success) {
                        Verdict::Applied => Some(
                            (ProcessorState { next: self.next + 1, ..self }).advance(),
                        ),
                        Verdict::Retry(event) => Some(
                            (
                                ProcessorState { phase: Phase::AwaitingAck, ..self },
                                Action::PushHead(event),
                            ),
                        ),
                        Verdict::Exhausted(event) => Some(
                            (
                                ProcessorState { phase: Phase::AwaitingAck, ..self },
                                Action::ReportExhausted(event),
                            ),
                        ),
                    }
                } else {
                    None
                }
            },
            (Phase::AwaitingAck, SignalView::Done) => {
                if self.next < self.batch.len() {
                    Some((ProcessorState { next: self.next + 1, ..self }).advance())
                } else {
                    None
                }
            },
            (Phase::Recording, SignalView::Done) => Some(
                (Self::waiting(self.mode), Self::wait_for(self.mode)),
            ),
            _ => None,
        }
    }
}

/// What a producer or an operator asks of the store, and how the processor
/// is to be woken once the store has done it.
#[derive(Debug, PartialEq)]
pub struct Request {
    pub channel: StreamChannel,
    pub action: Action,
    pub wake: Wake,
}

/// The request that queues `update`: a fresh event is pushed at the head of
/// the update's channel, then the processor is notified.
pub open spec fn enqueue_request(update: Update) -> Request {
    Request {
        channel: StreamChannel::of(update),
        action: Action::PushHead(UpdateStreamEvent::fresh(update)),
        wake: Wake::Notified,
    }
}

/// The request that writes the run flag of `channel`, then notifies the
/// processor so that it looks at the flag at once.
pub open spec fn flag_request(channel: StreamChannel, value: bool) -> Request {
    Request { channel, action: Action::SetFlag(value), wake: Wake::Notified }
}

/// Queues `update` for application: the producers' entry point.
pub fn enqueue(update: Update) -> (request: Request)
    ensures
        request == enqueue_request(update),
{
    let channel = StreamChannel::from_update(&update);
    Request {
        channel,
        action: Action::PushHead(UpdateStreamEvent::new(update)),
        wake: Wake::Notified,
    }
}

/// The consumer of one channel.
#[derive(Debug)]
pub struct UpdateProcessor {
    channel: StreamChannel,
    phase: Phase,
    mode: Mode,
    batch: Vec<Option<UpdateStreamEvent>>,
    next: usize,
}

impl View for UpdateProcessor {
    type V = ProcessorState;

    closed spec fn view(&self) -> ProcessorState {
        ProcessorState {
            phase: self.phase,
            mode: self.mode,
            batch: self.batch@,
            next: self.next as nat,
        }
    }
}

impl UpdateProcessor {
    /// The channel that the processor drains.
    pub closed spec fn spec_channel(&self) -> StreamChannel {
        self.channel
    }

    /// A processor for `channel` that has not begun. Its first signal is
    /// `Started`, upon which it looks at the run flag and sets it to `true`
    /// where the store has none: a flag that is there already stays as it is.
    pub fn new(channel: StreamChannel) -> (processor: Self)
        ensures
            processor@ == ProcessorState::initial(),
            processor.spec_channel() == channel,
    {
        UpdateProcessor {
            channel,
            phase: Phase::Created,
            mode: Mode::Active,
            batch: Vec::new(),
            next: 0,
        }
    }

    /// The channel that the processor drains.
    pub fn channel(&self) -> (channel: StreamChannel)
        ensures
            channel == self.spec_channel(),
    {
        self.channel
    }

    /// Which answer the processor waits for.
    pub fn phase(&self) -> (phase: Phase)
        ensures
            phase == self@.phase,
    {
        self.phase
    }

    /// The run state as the processor last saw it.
    pub fn mode(&self) -> (mode: Mode)
        ensures
            mode == self@.mode,
    {
        self.mode
    }

    /// Suspends draining: the flag of `channel` is cleared, then the
    /// processor is woken. The queue is not touched.
    pub fn pause(channel: StreamChannel) -> (request: Request)
        ensures
            request == flag_request(channel, false),
    {
        Request { channel, action: Action::SetFlag(false), wake: Wake::Notified }
    }

    /// Permits draining: the flag of `channel` is set, then the processor is
    /// woken. The queue is not touched.
    pub fn start(channel: StreamChannel) -> (request: Request)
        ensures
            request == flag_request(channel, true),
    {
        Request { channel, action: Action::SetFlag(true), wake: Wake::Notified }
    }

    /// Decides what becomes of `event` after the persistence layer has
    /// answered: see `verdict_of`.
    pub fn handle_update(event: UpdateStreamEvent, success: bool) -> (verdict: Verdict)
        ensures
            verdict == verdict_of(event, success),
    {
        if success {
            Verdict::Applied
        } else if event.attempt_count < RETRY_LIMIT - 1 {
            Verdict::Retry(
                UpdateStreamEvent { update: event.update, attempt_count: event.attempt_count + 1 },
            )
        } else {
            let attempt_count = if event.attempt_count < usize::MAX {
                event.attempt_count + 1
            } else {
                event.attempt_count
            };
            Verdict::Exhausted(UpdateStreamEvent { update: event.update, attempt_count })
        }
    }

    /// The wait that belongs to the mode last seen.
    fn wait(&mut self, mode: Mode) -> (action: Action)
        ensures
            final(self)@ == ProcessorState::waiting(mode),
            action == ProcessorState::wait_for(mode),
            final(self).spec_channel() == old(self).spec_channel(),
    {
        self.phase = Phase::Waiting;
        self.mode = mode;
        self.batch = Vec::new();
        self.next = 0;
        match mode {
            Mode::Active => Action::Wait(Some(POLL_INTERVAL_SECS)),
            Mode::Paused => Action::Wait(None),
        }
    }

    /// Turns to the next entry of the batch.
    fn advance(&mut self) -> (action: Action)
        ensures
            (final(self)@, action) == old(self)@.advance(),
            final(self).spec_channel() == old(self).spec_channel(),
    {
        if self.next < self.batch.len() {
            match &self.batch[self.next] {
                Some(event) => {
                    let call = dispatch(&event.update);
                    let attempt = event.attempt_count;
                    self.phase = Phase::AwaitingOutcome;
                    Action::Apply { call, attempt }
                },
                None => {
                    self.phase = Phase::AwaitingAck;
                    Action::ReportMalformed
                },
            }
        } else {
            self.phase = Phase::Recording;
            Action::RecordBatch
        }
    }

    /// The entry of the batch that is under way, if there is one.
    fn current(&self) -> (entry: Option<UpdateStreamEvent>)
        ensures
            entry == if self@.next < self@.batch.len() {
                self@.batch[self@.next as int]
            } else {
                None
            },
            self@.batch.len() <= usize::MAX,
    {
        if self.next < self.batch.len() {
            match &self.batch[self.next] {
                Some(event) => Some(event.clone()),
                None => None,
            }
        } else {
            None
        }
    }

    /// Tells the processor what happened and returns what it asks for next.
    /// A signal that is not the answer to the action last asked for changes
    /// nothing and is handed back.
    pub fn step(&mut self, signal: Signal) -> (result: Result<Action, Signal>)
        ensures
            match old(self)@.step(signal@) {
                Some((state, action)) => result == Ok::<Action, Signal>(action) && final(self)@
                    == state,
                None => result == Err::<Action, Signal>(signal) && final(self)@ == old(self)@,
            },
            final(self).spec_channel() == old(self).spec_channel(),
    {
        match self.phase {
            Phase::Created => match signal {
                Signal::Started => {
                    self.phase = Phase::Starting;
                    Ok(Action::GetFlag)
                },
                other => Err(other),
            },
            Phase::Starting => match signal {
                Signal::Flag(Some(true)) => Ok(self.wait(Mode::Active)),
                Signal::Flag(Some(false)) => Ok(self.wait(Mode::Paused)),
                Signal::Flag(None) => {
                    self.phase = Phase::Defaulting;
                    Ok(Action::SetFlag(true))
                },
                other => Err(other),
            },
            Phase::Defaulting => match signal {
                Signal::Done => Ok(self.wait(Mode::Active)),
                other => Err(other),
            },
            Phase::Waiting => match signal {
                Signal::Woken(_) => {
                    self.phase = Phase::AwaitingFlag;
                    Ok(Action::GetFlag)
                },
                Signal::Stop => {
                    self.phase = Phase::Stopped;
                    Ok(Action::Halt)
                },
                other => Err(other),
            },
            Phase::AwaitingFlag => match signal {
                Signal::Flag(Some(true)) => {
                    self.phase = Phase::AwaitingLength;
                    self.mode = Mode::Active;
                    Ok(Action::GetLength)
                },
                Signal::Flag(_) => Ok(self.wait(Mode::Paused)),
                other => Err(other),
            },
            Phase::AwaitingLength => match signal {
                Signal::Length(Some(n)) => {
                    if n > 0 {
                        self.phase = Phase::AwaitingBatch;
                        Ok(Action::PopTail(n))
                    } else {
                        Ok(self.wait(Mode::Active))
                    }
                },
                Signal::Length(None) => Ok(self.wait(Mode::Active)),
                other => Err(other),
            },
            Phase::AwaitingBatch => match signal {
                Signal::Batch(entries) => {
                    self.batch = entries;
                    self.next = 0;
                    Ok(self.advance())
                },
                other => Err(other),
            },
            Phase::AwaitingOutcome => match signal {
                Signal::Applied(success) => {
                    match self.current() {
                        Some(event) => match Self::handle_update(event, success) {
                            Verdict::Applied => {
                                self.next = self.next + 1;
                                Ok(self.advance())
                            },
                            Verdict::Retry(again) => {
                                self.phase = Phase::AwaitingAck;
                                Ok(Action::PushHead(again))
                            },
                            Verdict::Exhausted(last) => {
                                self.phase = Phase::AwaitingAck;
                                Ok(Action::ReportExhausted(last))
                            },
                        },
                        None => Err(Signal::Applied(success)),
                    }
                },
                other => Err(other),
            },
            Phase::AwaitingAck => match signal {
                Signal::Done => {
                    if self.next < self.batch.len() {
                        self.next = self.next + 1;
                        Ok(self.advance())
                    } else {
                        Err(Signal::Done)
                    }
                },
                other => Err(other),
            },
            Phase::Recording => match signal {
                Signal::Done => {
                    let mode = self.mode;
                    Ok(self.wait(mode))
                },
                other => Err(other),
            },
            Phase::Stopped => Err(signal),
        }
    }
}

} // verus!
