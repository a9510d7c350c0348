//! One channel of the queue store, held in memory.
use crate::stream::event::UpdateStreamEvent;
use crate::stream::processor::{Action, Signal, SignalView};
use std::collections::VecDeque;
use vstd::prelude::*;

verus! {

/// The number of failed applications at which an event is given up: an event
/// in the queue has failed fewer times than this.
pub const RETRY_LIMIT: usize = 3;

/// What one channel of the store holds: the events that wait, and the run
/// flag of the channel's processor.
pub struct StoreView {
    /// The waiting events, listed from the tail, where they leave, to the
    /// head, where they enter.
    pub queue: Seq<UpdateStreamEvent>,
    /// The run flag; `None` as long as nobody has set it.
    pub active: Option<bool>,
}

impl StoreView {
    /// A store in which nothing waits and no flag is set.
    pub open spec fn empty() -> StoreView {
        StoreView { queue: Seq::empty(), active: None }
    }

    /// The store after `event` has entered at the head.
    pub open spec fn push_head(self, event: UpdateStreamEvent) -> StoreView {
        StoreView { queue: self.queue.push(event), ..self }
    }

    /// How many events a pop of at most `max` takes.
    pub open spec fn pop_count(self, max: nat) -> nat {
        if max <= self.queue.len() {
            max
        } else {
            self.queue.len()
        }
    }

    /// The events that a pop of at most `max` takes, in the order in which
    /// they leave: the oldest first.
    pub open spec fn popped(self, max: nat) -> Seq<UpdateStreamEvent> {
        self.queue.take(self.pop_count(max) as int)
    }

    /// The store after a pop of at most `max`.
    pub open spec fn pop_tail(self, max: nat) -> StoreView {
        StoreView { queue: self.queue.skip(self.pop_count(max) as int), ..self }
    }

    /// The store after the run flag has been written.
    pub open spec fn set_flag(self, value: bool) -> StoreView {
        StoreView { active: Some(value), ..self }
    }

    /// Whether draining is permitted: the flag is set, and set to `true`.
    pub open spec fn is_active(self) -> bool {
        self.active == Some(true)
    }

    /// What the store does when asked for `action`, and what it answers;
    /// `None` for an action that is not the store's to carry out. A pop hands
    /// out every entry as a readable event.
    pub open spec fn answer(self, action: Action) -> Option<(StoreView, SignalView)> {
        match action {
            Action::SetFlag(value) => Some((self.set_flag(value), SignalView::Done)),
            Action::GetFlag => Some((self, SignalView::Flag(self.active))),
            Action::GetLength => Some(
                (self, SignalView::Length(Some(self.queue.len() as usize))),
            ),
            Action::PopTail(max) => Some(
                (
                    self.pop_tail(max as nat),
                    SignalView::Batch(
                        self.popped(max as nat).map_values(|event: UpdateStreamEvent| Some(event)),
                    ),
                ),
            ),
            Action::PushHead(event) => Some((self.push_head(event), SignalView::Done)),
            _ => None,
        }
    }

    /// Every waiting event has failed fewer than `RETRY_LIMIT` times.
    pub open spec fn within_retry_limit(self) -> bool {
        forall|i: int|
            0 <= i < self.queue.len() ==> (#[trigger] self.queue[i]).attempt_count < RETRY_LIMIT
    }
}

/// One channel of the queue store, held in memory.
pub struct QueueStore {
    pending: VecDeque<UpdateStreamEvent>,
    active: Option<bool>,
}

impl View for QueueStore {
    type V = StoreView;

    closed spec fn view(&self) -> StoreView {
        StoreView { queue: self.pending@, active: self.active }
    }
}

impl QueueStore {
    /// A store in which nothing waits and no flag is set.
    pub fn new() -> (store: Self)
        ensures
            store@ == StoreView::empty(),
    {
        QueueStore { pending: VecDeque::new(), active: None }
    }

    /// Lets `event` enter at the head of the queue.
    pub fn push_head(&mut self, event: UpdateStreamEvent)
        ensures
            final(self)@ == old(self)@.push_head(event),
    {
        self.pending.push_back(event);
    }

    /// Takes at most `max` events from the tail of the queue and returns
    /// them in the order in which they leave.
    pub fn pop_tail(&mut self, max: usize) -> (events: Vec<UpdateStreamEvent>)
        ensures
            events@ == old(self)@.popped(max as nat),
            final(self)@ == old(self)@.pop_tail(max as nat),
    {
        let mut events: Vec<UpdateStreamEvent> = Vec::new();
        let ghost before = self.pending@;
        while events.len() < max && self.pending.len() > 0
            invariant
                self.active == old(self).active,
                before == old(self)@.queue,
                events@.len() <= max,
                events@.len() <= before.len(),
                events@ == before.take(events@.len() as int),
                self.pending@ == before.skip(events@.len() as int),
            decreases self.pending@.len(),
        {
            let next = self.pending.pop_front();
            match next {
                Some(event) => {
                    events.push(event);
                },
                None => {},
            }
        }
        events
    }

    /// The number of events that wait.
    pub fn length(&self) -> (n: usize)
        ensures
            n == self@.queue.len(),
    {
        self.pending.len()
    }

    /// The run flag as stored; `None` as long as nobody has set it.
    pub fn get_flag(&self) -> (flag: Option<bool>)
        ensures
            flag == self@.active,
    {
        self.active
    }

    /// Writes the run flag. The queue is left alone.
    pub fn set_flag(&mut self, value: bool)
        ensures
            final(self)@ == old(self)@.set_flag(value),
    {
        self.active = Some(value);
    }

    /// Carries out an action that is the store's and returns the answer; an
    /// action that is not is handed back and changes nothing.
    pub fn serve(&mut self, action: Action) -> (result: Result<Signal, Action>)
        ensures
            match old(self)@.answer(action) {
                Some((store, signal)) => result is Ok && result->Ok_0@ == signal && final(self)@
                    == store,
                None => result == Err::<Signal, Action>(action) && final(self)@ == old(self)@,
            },
    {
        match action {
            Action::SetFlag(value) => {
                self.set_flag(value);
                Ok(Signal::Done)
            },
            Action::GetFlag => Ok(Signal::Flag(self.get_flag())),
            Action::GetLength => Ok(Signal::Length(Some(self.length()))),
            Action::PopTail(max) => {
                let events = self.pop_tail(max);
                let ghost popped = events@;
                let mut entries: Vec<Option<UpdateStreamEvent>> = Vec::new();
                for event in iter: events.into_iter()
                    invariant
                        iter.seq() == popped,
                        entries@.len() == iter.index(),
                        forall|j: int| 0 <= j < iter.index() ==> entries@[j] == Some(popped[j]),
                {
                    entries.push(Some(event));
                }
                assert(entries@ =~= popped.map_values(|event: UpdateStreamEvent| Some(event)));
                Ok(Signal::Batch(entries))
            },
            Action::PushHead(event) => {
                self.push_head(event);
                Ok(Signal::Done)
            },
            other => Err(other),
        }
    }
}

} // verus!
