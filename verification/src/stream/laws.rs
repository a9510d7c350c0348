//! What holds of every run of the processor.
use crate::stream::event::{StreamChannel, Update, UpdateStreamEvent};
use crate::stream::processor::{
    enqueue_request, failed_once_more, flag_request, Mode, Phase, ProcessorState, SignalView, Wake,
};
use crate::stream::store::RETRY_LIMIT;
use crate::stream::world::{attempt_of, cycle, drive, run, World};
use vstd::prelude::*;

verus! {

/// The mode in which a processor leaves a cycle that found the store as
/// `world` has it.
pub open spec fn mode_seen(world: World) -> Mode {
    if world.store.is_active() {
        Mode::Active
    } else {
        Mode::Paused
    }
}

/// From position `first` on, every call into the persistence layer gives
/// `outcome`.
pub open spec fn answers_alike(world: World, first: nat, outcome: bool) -> bool {
    forall|i: nat| i >= first ==> #[trigger] (world.outcomes)(i) == outcome
}

/// Working through a batch from any position on comes to the wait point and
/// leaves the world as settling the remaining entries leaves it.
proof fn lemma_batch(state: ProcessorState, world: World)
    requires
        state.next <= state.batch.len(),
    ensures
        drive(state.advance().0, world, state.advance().1) == (
            ProcessorState::waiting(state.mode),
            world.settle(state.batch, state.next),
        ),
    decreases state.batch.len() - state.next,
{
    reveal_with_fuel(drive, 3);
    if state.next < state.batch.len() {
        let onward = ProcessorState { next: state.next + 1, ..state };
        match state.batch[state.next as int] {
            Some(event) => {
                lemma_batch(onward, world.settle_one(event));
            },
            None => {
                lemma_batch(onward, world);
            },
        }
    }
}

/// Any batch is settled: a processor that waits for a batch takes whatever
/// the pop hands over, be it fewer entries than it asked for, more, or
/// entries that cannot be read, settles each entry in turn, and comes back to
/// its wait point in the mode it was in.
pub proof fn law_any_batch_is_settled(
    state: ProcessorState,
    world: World,
    entries: Seq<Option<UpdateStreamEvent>>,
)
    requires
        state.phase == Phase::AwaitingBatch,
    ensures
        run(state, world, SignalView::Batch(entries)) == (
            ProcessorState::waiting(state.mode),
            world.settle(entries, 0),
        ),
{
    lemma_batch(ProcessorState { batch: entries, next: 0, ..state }, world);
}

/// One wake of a processor at its wait point: the processor is back at the
/// wait point in the mode it saw, and the world is as `after_cycle` says.
pub proof fn law_cycle(state: ProcessorState, world: World, wake: Wake)
    requires
        state.phase == Phase::Waiting,
        world.store.queue.len() <= usize::MAX,
    ensures
        cycle(state, world, wake) == (
            ProcessorState::waiting(mode_seen(world)),
            world.after_cycle(),
        ),
{
    reveal_with_fuel(drive, 4);
    let queue = world.store.queue;
    if world.store.is_active() && queue.len() > 0 {
        let batch = queue.map_values(|event: UpdateStreamEvent| Some(event));
        let popped = World { store: world.store.pop_tail(queue.len()), ..world };
        assert(world.store.popped(queue.len()) == queue);
        let begun = ProcessorState {
            phase: Phase::AwaitingBatch,
            mode: Mode::Active,
            batch,
            next: 0,
        };
        lemma_batch(begun, popped);
    }
}

/// The calls that settling a batch of readable events adds are the calls
/// for these events in their order; the outcomes to come stay as they are.
proof fn lemma_settle_calls(world: World, queue: Seq<UpdateStreamEvent>, from: nat)
    requires
        from <= queue.len(),
    ensures
        world.settle(queue.map_values(|event: UpdateStreamEvent| Some(event)), from).calls
            == world.calls + queue.skip(from as int).map_values(
            |event: UpdateStreamEvent| attempt_of(event),
        ),
        world.settle(queue.map_values(|event: UpdateStreamEvent| Some(event)), from).outcomes
            == world.outcomes,
    decreases queue.len() - from,
{
    if from < queue.len() {
        lemma_settle_calls(world.settle_one(queue[from as int]), queue, from + 1);
    }
}

/// Where every call succeeds, settling a batch changes neither the store
/// nor the list of events given up.
proof fn lemma_settle_successes(world: World, queue: Seq<UpdateStreamEvent>, from: nat)
    requires
        from <= queue.len(),
        answers_alike(world, world.calls.len(), true),
    ensures
        world.settle(queue.map_values(|event: UpdateStreamEvent| Some(event)), from).store
            == world.store,
        world.settle(queue.map_values(|event: UpdateStreamEvent| Some(event)), from).dropped
            == world.dropped,
    decreases queue.len() - from,
{
    if from < queue.len() {
        lemma_settle_successes(world.settle_one(queue[from as int]), queue, from + 1);
    }
}

/// Settling a batch keeps the attempt counts in the queue under the limit.
proof fn lemma_settle_bound(world: World, batch: Seq<Option<UpdateStreamEvent>>, from: nat)
    requires
        world.store.within_retry_limit(),
    ensures
        world.settle(batch, from).store.within_retry_limit(),
        world.settle(batch, from).store.active == world.store.active,
    decreases batch.len() - from,
{
    if from < batch.len() {
        match batch[from as int] {
            Some(event) => {
                lemma_settle_bound(world.settle_one(event), batch, from + 1);
            },
            None => {
                lemma_settle_bound(world, batch, from + 1);
            },
        }
    }
}

/// What a cycle makes of a queue that holds one event.
proof fn lemma_cycle_of_one(world: World, event: UpdateStreamEvent)
    requires
        world.store.is_active(),
        world.store.queue == seq![event],
    ensures
        world.after_cycle() == (World {
            store: world.store.pop_tail(1),
            ..world
        }).settle_one(event),
        world.store.pop_tail(1).queue == Seq::<UpdateStreamEvent>::empty(),
{
    reveal_with_fuel(World::settle, 3);
}

/// Drain completeness: a wake of an active processor whose every call into
/// the persistence layer succeeds empties the queue, and makes as many calls
/// as events were waiting. Nothing is given up, and the flag stays set.
pub proof fn law_drain_completeness(state: ProcessorState, world: World, wake: Wake)
    requires
        state.phase == Phase::Waiting,
        world.store.is_active(),
        world.store.queue.len() <= usize::MAX,
        answers_alike(world, world.calls.len(), true),
    ensures
        cycle(state, world, wake).0 == ProcessorState::waiting(Mode::Active),
        cycle(state, world, wake).1.store.queue.len() == 0,
        cycle(state, world, wake).1.store.active == world.store.active,
        cycle(state, world, wake).1.calls.len() == world.calls.len() + world.store.queue.len(),
        cycle(state, world, wake).1.dropped == world.dropped,
{
    law_cycle(state, world, wake);
    let queue = world.store.queue;
    if queue.len() > 0 {
        let popped = World { store: world.store.pop_tail(queue.len()), ..world };
        lemma_settle_calls(popped, queue, 0);
        lemma_settle_successes(popped, queue, 0);
    }
}

/// Order: whatever the persistence layer answers, a wake of an active
/// processor calls it once for each waiting event, in the order in which the
/// events entered the queue, and with the attempt count that each event
/// carried.
pub proof fn law_dispatch_order(state: ProcessorState, world: World, wake: Wake)
    requires
        state.phase == Phase::Waiting,
        world.store.is_active(),
        world.store.queue.len() <= usize::MAX,
    ensures
        cycle(state, world, wake).1.calls == world.calls + world.store.queue.map_values(
            |event: UpdateStreamEvent| attempt_of(event),
        ),
{
    law_cycle(state, world, wake);
    let queue = world.store.queue;
    if queue.len() > 0 {
        let popped = World { store: world.store.pop_tail(queue.len()), ..world };
        lemma_settle_calls(popped, queue, 0);
    }
}

/// Order of arrival: events enter the queue behind those that wait already,
/// so updates queued one after the other leave in that order.
pub proof fn law_enqueue_order(world: World, first: Update, second: Update)
    ensures
        world.submit(enqueue_request(first)).submit(enqueue_request(second)).store.queue
            == world.store.queue + seq![
            UpdateStreamEvent::fresh(first),
            UpdateStreamEvent::fresh(second),
        ],
        world.submit(enqueue_request(first)).store.active == world.store.active,
{
}

/// Retry then success: an event that is alone in the queue and whose
/// application fails twice and then succeeds is called for in three cycles,
/// with attempt counts 0, 1 and 2; after the third the queue is empty and
/// nothing has been given up.
pub proof fn law_retry_then_success(
    state: ProcessorState,
    world: World,
    update: Update,
    wake: Wake,
)
    requires
        state.phase == Phase::Waiting,
        world.store.is_active(),
        world.store.queue == seq![UpdateStreamEvent::fresh(update)],
        !(world.outcomes)(world.calls.len()),
        !(world.outcomes)(world.calls.len() + 1),
        (world.outcomes)(world.calls.len() + 2),
    ensures
        ({
            let event = UpdateStreamEvent::fresh(update);
            let (state1, world1) = cycle(state, world, wake);
            let (state2, world2) = cycle(state1, world1, wake);
            let (state3, world3) = cycle(state2, world2, wake);
            &&& world1.store.queue == seq![failed_once_more(event)]
            &&& world2.store.queue == seq![failed_once_more(failed_once_more(event))]
            &&& world3.store.queue == Seq::<UpdateStreamEvent>::empty()
            &&& world3.calls == world.calls + seq![
                attempt_of(event),
                attempt_of(failed_once_more(event)),
                attempt_of(failed_once_more(failed_once_more(event))),
            ]
            &&& world3.calls.last().attempt == 2
            &&& world3.dropped == world.dropped
            &&& state3 == ProcessorState::waiting(Mode::Active)
        }),
{
    let event = UpdateStreamEvent::fresh(update);
    let once = failed_once_more(event);
    let twice = failed_once_more(once);
    law_cycle(state, world, wake);
    lemma_cycle_of_one(world, event);
    let (state1, world1) = cycle(state, world, wake);
    law_cycle(state1, world1, wake);
    lemma_cycle_of_one(world1, once);
    let (state2, world2) = cycle(state1, world1, wake);
    law_cycle(state2, world2, wake);
    lemma_cycle_of_one(world2, twice);
}

/// Retry exhaustion: an event that is alone in the queue and whose
/// application always fails goes back into the queue after the first and
/// after the second cycle, `RETRY_LIMIT - 1` times in all; the third cycle
/// gives it up, and a fourth finds nothing to do. The persistence layer is
/// called `RETRY_LIMIT` times.
pub proof fn law_retry_exhaustion(
    state: ProcessorState,
    world: World,
    update: Update,
    wake: Wake,
)
    requires
        state.phase == Phase::Waiting,
        world.store.is_active(),
        world.store.queue == seq![UpdateStreamEvent::fresh(update)],
        answers_alike(world, world.calls.len(), false),
    ensures
        ({
            let event = UpdateStreamEvent::fresh(update);
            let (state1, world1) = cycle(state, world, wake);
            let (state2, world2) = cycle(state1, world1, wake);
            let (state3, world3) = cycle(state2, world2, wake);
            let (state4, world4) = cycle(state3, world3, wake);
            &&& world1.store.queue == seq![failed_once_more(event)]
            &&& world2.store.queue == seq![failed_once_more(failed_once_more(event))]
            &&& world3.store.queue == Seq::<UpdateStreamEvent>::empty()
            &&& world3.calls.len() == world.calls.len() + RETRY_LIMIT
            &&& world3.dropped == world.dropped.push(
                failed_once_more(failed_once_more(failed_once_more(event))),
            )
            &&& world4 == world3
        }),
{
    let event = UpdateStreamEvent::fresh(update);
    let once = failed_once_more(event);
    let twice = failed_once_more(once);
    law_cycle(state, world, wake);
    lemma_cycle_of_one(world, event);
    let (state1, world1) = cycle(state, world, wake);
    law_cycle(state1, world1, wake);
    lemma_cycle_of_one(world1, once);
    let (state2, world2) = cycle(state1, world1, wake);
    law_cycle(state2, world2, wake);
    lemma_cycle_of_one(world2, twice);
    let (state3, world3) = cycle(state2, world2, wake);
    law_cycle(state3, world3, wake);
}

/// Pause honoured: while the flag is not set to `true`, a wake leaves the
/// queue, the calls and everything else as they were, however many events
/// wait. Once the flag has been set again, a wake whose calls all succeed
/// drains every one of them.
pub proof fn law_pause_honoured(
    state: ProcessorState,
    world: World,
    channel: StreamChannel,
    wake: Wake,
)
    requires
        state.phase == Phase::Waiting,
        !world.store.is_active(),
        world.store.queue.len() <= usize::MAX,
        answers_alike(world, world.calls.len(), true),
    ensures
        cycle(state, world, wake) == (ProcessorState::waiting(Mode::Paused), world),
        ({
            let resumed = world.submit(flag_request(channel, true));
            let (after, drained) = cycle(ProcessorState::waiting(Mode::Paused), resumed, wake);
            &&& resumed.store.queue == world.store.queue
            &&& drained.store.queue.len() == 0
            &&& drained.calls.len() == world.calls.len() + world.store.queue.len()
            &&& after == ProcessorState::waiting(Mode::Active)
        }),
{
    law_cycle(state, world, wake);
    let resumed = world.submit(flag_request(channel, true));
    law_drain_completeness(ProcessorState::waiting(Mode::Paused), resumed, wake);
}

/// The control surface touches the flag only: pausing and resuming leave
/// the queue, the calls made and the events given up as they were, and doing
/// either twice is the same as doing it once.
pub proof fn law_control_surface(world: World, channel: StreamChannel, value: bool)
    ensures
        world.submit(flag_request(channel, value)).store.queue == world.store.queue,
        world.submit(flag_request(channel, value)).store.active == Some(value),
        world.submit(flag_request(channel, value)).calls == world.calls,
        world.submit(flag_request(channel, value)).dropped == world.dropped,
        world.submit(flag_request(channel, value)).submit(flag_request(channel, value))
            == world.submit(flag_request(channel, value)),
{
}

/// Flag durability: the run flag is the store's, not the processor's. After
/// a pause, a processor that has kept running and one that has just been
/// created on the same store both find the store paused, come to their wait
/// point in paused mode, and leave the world alone: the start-up of the new
/// one does not write the flag, and its first wake calls nobody.
pub proof fn law_flag_durability(
    state: ProcessorState,
    world: World,
    channel: StreamChannel,
    wake: Wake,
)
    requires
        state.phase == Phase::Waiting,
        world.store.queue.len() <= usize::MAX,
    ensures
        ({
            let paused = world.submit(flag_request(channel, false));
            let (restarted, found) = run(ProcessorState::initial(), paused, SignalView::Started);
            &&& paused.store.active == Some(false)
            &&& cycle(state, paused, wake) == (ProcessorState::waiting(Mode::Paused), paused)
            &&& restarted == ProcessorState::waiting(Mode::Paused)
            &&& found == paused
            &&& cycle(restarted, found, wake) == (ProcessorState::waiting(Mode::Paused), paused)
        }),
{
    let paused = world.submit(flag_request(channel, false));
    law_start_up(paused);
    law_cycle(state, paused, wake);
    law_cycle(ProcessorState::waiting(Mode::Paused), paused, wake);
}

/// Memory does not matter: what a wake does to the world, and where it
/// leaves the processor, is the same for every processor at its wait point.
pub proof fn law_cycle_reads_the_store(
    state: ProcessorState,
    other: ProcessorState,
    world: World,
    wake: Wake,
)
    requires
        state.phase == Phase::Waiting,
        other.phase == Phase::Waiting,
        world.store.queue.len() <= usize::MAX,
    ensures
        cycle(state, world, wake) == cycle(other, world, wake),
{
    law_cycle(state, world, wake);
    law_cycle(other, world, wake);
}

/// The bound on attempts: where every waiting event has failed fewer than
/// `RETRY_LIMIT` times, this still holds after an update has been queued and
/// after a cycle, whatever the persistence layer answers.
pub proof fn law_retry_bound(state: ProcessorState, world: World, update: Update, wake: Wake)
    requires
        state.phase == Phase::Waiting,
        world.store.within_retry_limit(),
        world.store.queue.len() <= usize::MAX,
    ensures
        world.submit(enqueue_request(update)).store.within_retry_limit(),
        cycle(state, world, wake).1.store.within_retry_limit(),
{
    law_cycle(state, world, wake);
    let queue = world.store.queue;
    if world.store.is_active() && queue.len() > 0 {
        let batch = queue.map_values(|event: UpdateStreamEvent| Some(event));
        let popped = World { store: world.store.pop_tail(queue.len()), ..world };
        lemma_settle_bound(popped, batch, 0);
    }
}

/// Retries rejoin behind: whatever waits in the queue while a batch is
/// settled stays where it is, in its order; an event that is queued again
/// enters behind all of it.
pub proof fn law_retries_rejoin_behind(
    world: World,
    batch: Seq<Option<UpdateStreamEvent>>,
    from: nat,
)
    ensures
        world.store.queue.is_prefix_of(world.settle(batch, from).store.queue),
    decreases batch.len() - from,
{
    if from < batch.len() {
        match batch[from as int] {
            Some(event) => {
                law_retries_rejoin_behind(world.settle_one(event), batch, from + 1);
            },
            None => {
                law_retries_rejoin_behind(world, batch, from + 1);
            },
        }
    }
}

/// A batch runs to its end: once the batch has been popped, the processor
/// does not look at the run flag again, so a flag written while the batch is
/// under way changes nothing of what is called, queued again or given up.
pub proof fn law_batch_ignores_flag(
    world: World,
    batch: Seq<Option<UpdateStreamEvent>>,
    from: nat,
    value: bool,
)
    ensures
        (World { store: world.store.set_flag(value), ..world }).settle(batch, from) == (World {
            store: world.settle(batch, from).store.set_flag(value),
            ..world.settle(batch, from)
        }),
    decreases batch.len() - from,
{
    if from < batch.len() {
        match batch[from as int] {
            Some(event) => {
                law_batch_ignores_flag(world.settle_one(event), batch, from + 1, value);
            },
            None => {
                law_batch_ignores_flag(world, batch, from + 1, value);
            },
        }
    }
}

/// Stopping: a processor that is told to stop at its wait point halts,
/// leaves the world as it is, and takes no further signal.
pub proof fn law_stop(state: ProcessorState, world: World, signal: SignalView)
    requires
        state.phase == Phase::Waiting,
    ensures
        run(state, world, SignalView::Stop) == (
            ProcessorState { phase: Phase::Stopped, ..state },
            world,
        ),
        (ProcessorState { phase: Phase::Stopped, ..state }).step(signal) is None,
{
    reveal_with_fuel(drive, 2);
}

/// Start-up: a processor that has been created looks at the run flag. A
/// flag that the store has already stays as it is, and the processor comes to
/// its wait point in the mode that the flag gives; where the store has none,
/// the flag is set to `true` and the mode is active. The queue is not
/// touched.
pub proof fn law_start_up(world: World)
    ensures
        run(ProcessorState::initial(), world, SignalView::Started) == (match world.store.active {
            Some(value) => (ProcessorState::waiting(ProcessorState::mode_of(value)), world),
            None => (
                ProcessorState::waiting(Mode::Active),
                World { store: world.store.set_flag(true), ..world },
            ),
        }),
{
    reveal_with_fuel(drive, 3);
}

} // verus!
