//! The processor at work: a mathematical account of the store and of the
//! persistence layer, and of what a run of the processor makes of them.
use crate::stream::event::UpdateStreamEvent;
use crate::stream::processor::{
    dispatch_of, verdict_of, Action, PersistenceCall, Phase, ProcessorState, Request, SignalView,
    Verdict, Wake,
};
use crate::stream::store::StoreView;
use vstd::prelude::*;

verus! {

/// One call into the persistence layer as the processor made it.
pub struct Attempt {
    pub call: PersistenceCall,
    /// How often the event had failed before.
    pub attempt: usize,
}

/// The call that the processor makes for `event`.
pub open spec fn attempt_of(event: UpdateStreamEvent) -> Attempt {
    Attempt { call: dispatch_of(event.update), attempt: event.attempt_count }
}

/// Everything outside the processor.
pub struct World {
    /// The processor's channel of the queue store.
    pub store: StoreView,
    /// Whether the persistence layer applies the update of its first call,
    /// its second call, and so on.
    pub outcomes: spec_fn(nat) -> bool,
    /// The calls made into the persistence layer so far, oldest first.
    pub calls: Seq<Attempt>,
    /// The events reported as given up so far, oldest first.
    pub dropped: Seq<UpdateStreamEvent>,
}

impl World {
    /// The world after `action` has been carried out in it, and the answer;
    /// `None` for a wait, which is answered from elsewhere, and for a halt,
    /// which is not answered.
    pub open spec fn respond(self, action: Action) -> Option<(World, SignalView)> {
        match action {
            Action::Apply { call, attempt } => Some(
                (
                    World { calls: self.calls.push(Attempt { call, attempt }), ..self },
                    SignalView::Applied((self.outcomes)(self.calls.len())),
                ),
            ),
            Action::ReportExhausted(event) => Some(
                (World { dropped: self.dropped.push(event), ..self }, SignalView::Done),
            ),
            Action::ReportMalformed => Some((self, SignalView::Done)),
            Action::RecordBatch => Some((self, SignalView::Done)),
            Action::Wait(_) => None,
            Action::Halt => None,
            _ => match self.store.answer(action) {
                Some((store, signal)) => Some((World { store, ..self }, signal)),
                None => None,
            },
        }
    }

    /// The world after the store has carried out the action of `request`.
    pub open spec fn submit(self, request: Request) -> World {
        match self.respond(request.action) {
            Some((world, _)) => world,
            None => self,
        }
    }

    /// The world after the persistence layer has been called for `event` and
    /// the event has been settled according to the answer.
    pub open spec fn settle_one(self, event: UpdateStreamEvent) -> World {
        let called = World { calls: self.calls.push(attempt_of(event)), ..self };
        match verdict_of(event, (self.outcomes)(self.calls.len())) {
            Verdict::Applied => called,
            Verdict::Retry(again) => World { store: called.store.push_head(again), ..called },
            Verdict::Exhausted(last) => World { dropped: called.dropped.push(last), ..called },
        }
    }

    /// The world after the entries of `batch` from position `from` on have
    /// been settled one after the other. Unreadable entries leave no trace.
    pub open spec fn settle(self, batch: Seq<Option<UpdateStreamEvent>>, from: nat) -> World
        decreases batch.len() - from,
    {
        if from >= batch.len() {
            self
        } else {
            let next = match batch[from as int] {
                Some(event) => self.settle_one(event),
                None => self,
            };
            next.settle(batch, from + 1)
        }
    }

    /// The world after one wake of a processor at its wait point: nothing
    /// happens unless the flag is set to `true` and events wait; otherwise
    /// all of them are popped and settled in the order in which they leave.
    pub open spec fn after_cycle(self) -> World {
        if self.store.is_active() && self.store.queue.len() > 0 {
            let batch = self.store.queue.map_values(|event: UpdateStreamEvent| Some(event));
            (World { store: self.store.pop_tail(self.store.queue.len()), ..self }).settle(batch, 0)
        } else {
            self
        }
    }
}

/// How far a processor in this phase is from its wait point.
pub open spec fn phase_rank(phase: Phase) -> nat {
    match phase {
        Phase::Created => 8,
        Phase::Starting => 7,
        Phase::Defaulting => 6,
        Phase::AwaitingFlag => 5,
        Phase::AwaitingLength => 4,
        Phase::AwaitingBatch => 3,
        Phase::AwaitingOutcome => 2,
        Phase::AwaitingAck => 2,
        Phase::Recording => 1,
        Phase::Waiting => 0,
        Phase::Stopped => 0,
    }
}

/// How much of the batch is still to do, counted in answers.
pub open spec fn answers_left(state: ProcessorState) -> nat {
    if state.next < state.batch.len() {
        let entries = 2 * (state.batch.len() - state.next);
        if state.phase == Phase::AwaitingOutcome {
            (entries + 1) as nat
        } else {
            entries as nat
        }
    } else {
        0
    }
}

/// Carries out `action` in `world`, gives the answer to the processor in
/// `state`, and goes on with what the processor asks for next, until it
/// waits. Returns the processor and the world as they are then.
pub open spec fn drive(state: ProcessorState, world: World, action: Action) -> (
    ProcessorState,
    World,
)
    decreases phase_rank(state.phase), answers_left(state),
{
    match world.respond(action) {
        None => (state, world),
        Some((changed, answer)) => match state.step(answer) {
            None => (state, changed),
            Some((next, asked)) => drive(next, changed, asked),
        },
    }
}

/// Gives `signal` to the processor in `state` and lets it work in `world`
/// until it waits.
pub open spec fn run(state: ProcessorState, world: World, signal: SignalView) -> (
    ProcessorState,
    World,
) {
    match state.step(signal) {
        None => (state, world),
        Some((next, asked)) => drive(next, world, asked),
    }
}

/// What a wake makes of a processor at its wait point and of the world.
pub open spec fn cycle(state: ProcessorState, world: World, wake: Wake) -> (ProcessorState, World) {
    run(state, world, SignalView::Woken(wake))
}

} // verus!
