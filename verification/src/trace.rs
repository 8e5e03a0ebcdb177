//! What holds of every run of a cursor producer.
//!
//! A run is a sequence of events: polls, ingestion messages and configurations, each with the
//! answers that storage gave while it was handled. The producer's methods take the steps of
//! [`ProducerState`]; here those steps are strung together, and the guarantees that a client
//! relies on are proved of every run.

use vstd::prelude::*;
use crate::block::GlobalBlockId;
use crate::reads::answers_poll;
use crate::state::{IngestionState, ProducerState, next_block_number};
use crate::storage::{StorageReader, canonical_at, numbered};
use crate::stream::{Batch, DataFinality, IngestionMessage, IngestionResponse};

verus! {

/// One event in the life of a cursor producer.
pub enum Event {
    /// A poll. `loaded` is what storage says of the tips, `found` the canonical cursors that
    /// it has from the next block on, up to the first gap.
    Poll { loaded: IngestionState, found: Seq<GlobalBlockId> },
    /// An ingestion message. `loaded` is what storage says of the tips.
    Message { loaded: IngestionState, message: IngestionMessage },
    /// A configuration whose starting cursor storage resolved to `current`. `invalidated`
    /// says that `current` is an ancestor that took the place of the starting cursor.
    Reconfigure {
        finality: DataFinality,
        batch_size: usize,
        current: Option<GlobalBlockId>,
        invalidated: bool,
    },
}

/// What an event makes the producer say.
pub enum Output {
    /// Nothing that reaches the client.
    Nothing,
    /// A batch to send.
    Batch(Batch),
    /// The client must drop what it holds after the cursor.
    Invalidate(GlobalBlockId),
}

impl Output {
    /// A batch of finalized or accepted blocks.
    pub open spec fn is_settled_batch(self) -> bool {
        self matches Output::Batch(batch) && batch.finality != DataFinality::DataStatusPending
    }

    /// A batch that holds a pending block.
    pub open spec fn is_pending_batch(self) -> bool {
        self matches Output::Batch(batch) && batch.finality == DataFinality::DataStatusPending
    }
}

/// The number of the block that the client gets next.
pub open spec fn next_number(state: ProducerState) -> int {
    next_block_number(state.current())
}

/// The state after `event`, and what the producer says.
pub open spec fn step(state: ProducerState, event: Event) -> (ProducerState, Output) {
    match event {
        Event::Poll { loaded, found } => {
            let (after, batch) = state.poll(loaded, found);
            (
                after,
                match batch {
                    Some(batch) => Output::Batch(batch),
                    None => Output::Nothing,
                },
            )
        },
        Event::Message { loaded, message } => {
            let (after, response) = state.ingest(loaded, message);
            (
                after,
                match response {
                    IngestionResponse::Invalidate(cursor) => Output::Invalidate(cursor),
                    IngestionResponse::Valid => Output::Nothing,
                },
            )
        },
        Event::Reconfigure { finality, batch_size, current, invalidated } => (
            state.reconfigure(finality, batch_size, current),
            match current {
                Some(cursor) if invalidated => Output::Invalidate(cursor),
                _ => Output::Nothing,
            },
        ),
    }
}

/// The cursors carry the numbers `first`, `first + 1` and so on.
pub open spec fn numbered_from(cursors: Seq<GlobalBlockId>, first: int) -> bool {
    forall|k: int| 0 <= k < cursors.len() ==> (#[trigger] cursors[k]).number == first + k
}

/// Storage answers a poll with the blocks that were asked for: the cursors found carry the
/// numbers of the blocks that follow the client's position, one after the other.
pub open spec fn faithful(state: ProducerState, event: Event) -> bool {
    match event {
        Event::Poll { found, .. } => numbered_from(found, next_number(state)),
        _ => true,
    }
}

/// The state before the event `k` of a run that starts in `initial`.
pub open spec fn state_at(initial: ProducerState, events: Seq<Event>, k: nat) -> ProducerState
    decreases k,
{
    if k == 0 {
        initial
    } else {
        step(state_at(initial, events, (k - 1) as nat), events[k - 1]).0
    }
}

/// What the producer says to the event `k` of a run that starts in `initial`.
pub open spec fn output_at(initial: ProducerState, events: Seq<Event>, k: int) -> Output {
    step(state_at(initial, events, k as nat), events[k]).1
}

/// Storage is faithful at the event `k` of the run.
pub open spec fn faithful_at(initial: ProducerState, events: Seq<Event>, k: int) -> bool {
    faithful(state_at(initial, events, k as nat), events[k])
}

/// The event `k` of the run is no configuration, and the client hears nothing of it but,
/// at most, a pending block.
pub open spec fn quiet_at(initial: ProducerState, events: Seq<Event>, k: int) -> bool {
    &&& !(events[k] is Reconfigure)
    &&& !(output_at(initial, events, k) is Invalidate)
    &&& !output_at(initial, events, k).is_settled_batch()
}

/// The event `k` of the run is no configuration, it invalidates nothing, and storage is
/// faithful at it.
pub open spec fn steady_at(initial: ProducerState, events: Seq<Event>, k: int) -> bool {
    &&& !(events[k] is Reconfigure)
    &&& !(output_at(initial, events, k) is Invalidate)
    &&& faithful_at(initial, events, k)
}

/// A batch holds what was looked up: blocks as settled as the client asked for at least, one
/// block at the least, and of finalized blocks no more than the batch size.
///
/// A client that asked for finalized data gets finalized batches only; accepted batches go to
/// clients that asked for accepted or pending data; pending batches go only to clients that
/// asked for pending data.
pub proof fn lemma_batch_respects_configuration(
    state: ProducerState,
    loaded: IngestionState,
    found: Seq<GlobalBlockId>,
)
    requires
        state.poll(loaded, found).1 is Some,
    ensures
        ({
            let batch = state.poll(loaded, found).1.unwrap();
            let configuration = state.configuration.unwrap();
            &&& state.configuration is Some
            &&& batch.start == state.current()
            &&& 1 <= batch.cursors.len() <= found.len()
            &&& forall|k: int| 0 <= k < batch.cursors.len() ==> batch.cursors[k] == found[k]
            &&& batch.finality == DataFinality::DataStatusFinalized ==> batch.cursors.len()
                <= configuration.batch_size
            &&& batch.finality != DataFinality::DataStatusFinalized ==> batch.cursors.len() == 1
            &&& batch.finality == DataFinality::DataStatusAccepted ==> {
                ||| configuration.data_finality == DataFinality::DataStatusAccepted
                ||| configuration.data_finality == DataFinality::DataStatusPending
            }
            &&& batch.finality == DataFinality::DataStatusPending ==> {
                &&& configuration.data_finality == DataFinality::DataStatusPending
                &&& !configuration.pending_sent
            }
            &&& batch.finality != DataFinality::DataStatusUnknown
        }),
{
}

/// Where storage is faithful, a batch holds the blocks that follow the client's position, one
/// after the other, and a finalized batch holds no block above the finalized tip.
pub proof fn lemma_batch_follows_position(
    state: ProducerState,
    loaded: IngestionState,
    found: Seq<GlobalBlockId>,
)
    requires
        state.poll(loaded, found).1 is Some,
        numbered_from(found, next_number(state)),
    ensures
        ({
            let batch = state.poll(loaded, found).1.unwrap();
            let after = state.poll(loaded, found).0;
            &&& numbered_from(batch.cursors, next_number(state))
            &&& batch.finality == DataFinality::DataStatusFinalized ==> {
                &&& after.ingestion_state.unwrap().finalized matches Some(finalized)
                &&& batch.cursors.last().number <= finalized.number
            }
            &&& batch.finality != DataFinality::DataStatusPending ==> next_number(after)
                == batch.cursors.last().number + 1
            &&& batch.finality == DataFinality::DataStatusPending ==> after.current()
                == state.current()
        }),
{
    lemma_batch_respects_configuration(state, loaded, found);
    let batch = state.poll(loaded, found).1.unwrap();
    let after = state.poll(loaded, found).0;
    let configuration = state.configuration.unwrap();
    let lookup = configuration.lookup(state.tips(loaded));
    assert forall|k: int| 0 <= k < batch.cursors.len() implies (#[trigger] batch.cursors[k]).number
        == next_number(state) + k by {
        assert(batch.cursors[k] == found[k]);
    }
    let end = batch.cursors.len() - 1;
    assert(batch.cursors.last() == batch.cursors[end]);
    assert(batch.cursors[end].number == next_number(state) + end);
    assert(batch.cursors.len() <= lookup.limit());
}

/// An event that is quiet leaves the client's position where it was.
proof fn lemma_quiet_step(state: ProducerState, event: Event)
    requires
        !(event is Reconfigure),
        !(step(state, event).1 is Invalidate),
        !step(state, event).1.is_settled_batch(),
    ensures
        next_number(step(state, event).0) == next_number(state),
{
    match event {
        Event::Poll { loaded, found } => {
            if state.poll(loaded, found).1 is Some {
                lemma_batch_respects_configuration(state, loaded, found);
            }
        },
        _ => {},
    }
}

/// An event that is steady does not take the client's position back.
proof fn lemma_steady_step(state: ProducerState, event: Event)
    requires
        !(event is Reconfigure),
        !(step(state, event).1 is Invalidate),
        faithful(state, event),
    ensures
        next_number(step(state, event).0) >= next_number(state),
{
    match event {
        Event::Poll { loaded, found } => {
            if state.poll(loaded, found).1 is Some {
                lemma_batch_follows_position(state, loaded, found);
            }
        },
        _ => {},
    }
}

/// Over quiet events the client's position stays where it is: neither a poll that gives
/// nothing or a pending block, nor an ingestion message that invalidates nothing, moves it.
pub proof fn lemma_position_stays(initial: ProducerState, events: Seq<Event>, i: nat, j: nat)
    requires
        i <= j <= events.len(),
        forall|k: int| i <= k < j ==> quiet_at(initial, events, k),
    ensures
        next_number(state_at(initial, events, j)) == next_number(state_at(initial, events, i)),
    decreases j - i,
{
    if i < j {
        lemma_position_stays(initial, events, i, (j - 1) as nat);
        assert(quiet_at(initial, events, j - 1));
        lemma_quiet_step(state_at(initial, events, (j - 1) as nat), events[j - 1]);
    }
}

/// Between reorganisations the client's position does not go back: over events that are
/// steady, the number of the next block stays or grows.
pub proof fn lemma_position_never_goes_back(initial: ProducerState, events: Seq<Event>, i: nat, j: nat)
    requires
        i <= j <= events.len(),
        forall|k: int| i <= k < j ==> steady_at(initial, events, k),
    ensures
        next_number(state_at(initial, events, j)) >= next_number(state_at(initial, events, i)),
    decreases j - i,
{
    if i < j {
        lemma_position_never_goes_back(initial, events, i, (j - 1) as nat);
        assert(steady_at(initial, events, j - 1));
        lemma_steady_step(state_at(initial, events, (j - 1) as nat), events[j - 1]);
    }
}

/// Batches come in the order of the chain.
///
/// Take two batches of a run, with no configuration, no invalidation and no batch of settled
/// blocks between them, and let storage be faithful at both. Then the second batch starts
/// right after the last block of the first; after a pending block, it starts with that same
/// block once more. So the last block of the first batch is never above the first block of
/// the second.
pub proof fn lemma_batches_in_order(
    initial: ProducerState,
    events: Seq<Event>,
    i: int,
    j: int,
)
    requires
        0 <= i < j < events.len(),
        output_at(initial, events, i) is Batch,
        output_at(initial, events, j) is Batch,
        faithful_at(initial, events, i),
        faithful_at(initial, events, j),
        forall|k: int| i < k < j ==> quiet_at(initial, events, k),
    ensures
        ({
            let first = output_at(initial, events, i)->Batch_0;
            let second = output_at(initial, events, j)->Batch_0;
            &&& first.cursors.len() > 0
            &&& second.cursors.len() > 0
            &&& first.cursors.last().number <= second.cursors.first().number
            &&& second.cursors.first().number == if first.finality
                == DataFinality::DataStatusPending {
                first.cursors.last().number as int
            } else {
                first.cursors.last().number + 1
            }
        }),
{
    let before_first = state_at(initial, events, i as nat);
    let before_second = state_at(initial, events, j as nat);
    match events[i] {
        Event::Poll { loaded, found } => {
            lemma_batch_respects_configuration(before_first, loaded, found);
            lemma_batch_follows_position(before_first, loaded, found);
        },
        _ => {},
    }
    match events[j] {
        Event::Poll { loaded, found } => {
            lemma_batch_respects_configuration(before_second, loaded, found);
            lemma_batch_follows_position(before_second, loaded, found);
        },
        _ => {},
    }
    assert(state_at(initial, events, (i + 1) as nat) == step(before_first, events[i]).0);
    lemma_position_stays(initial, events, (i + 1) as nat, j as nat);
}

/// After an invalidation, the client gets only blocks above the invalidated cursor.
///
/// Take an invalidation of a run and a later batch, with no configuration and no further
/// invalidation between them, and let storage be faithful from the one to the other. Then every
/// block of the batch has a number above that of the invalidation's cursor.
pub proof fn lemma_batches_follow_invalidation(
    initial: ProducerState,
    events: Seq<Event>,
    i: int,
    j: int,
)
    requires
        0 <= i < j < events.len(),
        output_at(initial, events, i) is Invalidate,
        output_at(initial, events, j) is Batch,
        forall|k: int| i < k < j ==> steady_at(initial, events, k),
        faithful_at(initial, events, j),
    ensures
        ({
            let cursor = output_at(initial, events, i)->Invalidate_0;
            let batch = output_at(initial, events, j)->Batch_0;
            forall|k: int|
                0 <= k < batch.cursors.len() ==> (#[trigger] batch.cursors[k]).number
                    > cursor.number
        }),
{
    let before = state_at(initial, events, i as nat);
    let after = state_at(initial, events, (i + 1) as nat);
    let cursor = output_at(initial, events, i)->Invalidate_0;
    assert(after == step(before, events[i]).0);
    assert(next_number(after) == cursor.number + 1);
    lemma_position_never_goes_back(initial, events, (i + 1) as nat, j as nat);
    match events[j] {
        Event::Poll { loaded, found } => {
            lemma_batch_follows_position(state_at(initial, events, j as nat), loaded, found);
        },
        _ => {},
    }
}

/// Once the pending block went out, polls keep it in mind.
proof fn lemma_pending_stays_sent(initial: ProducerState, events: Seq<Event>, i: nat, j: nat)
    requires
        i <= j <= events.len(),
        forall|k: int| i <= k < j ==> events[k] is Poll,
        state_at(initial, events, i).configuration matches Some(configuration)
            && configuration.pending_sent,
    ensures
        state_at(initial, events, j).configuration matches Some(configuration)
            && configuration.pending_sent,
    decreases j - i,
{
    if i < j {
        lemma_pending_stays_sent(initial, events, i, (j - 1) as nat);
        assert(events[j - 1] is Poll);
    }
}

/// A pending block goes out once.
///
/// Of two polls of a run with nothing but polls between them, at most one gives a batch with
/// a pending block: only an ingestion message or a configuration brings the next one.
pub proof fn lemma_one_pending_batch(
    initial: ProducerState,
    events: Seq<Event>,
    i: int,
    j: int,
)
    requires
        0 <= i < j < events.len(),
        forall|k: int| i <= k <= j ==> events[k] is Poll,
        output_at(initial, events, i).is_pending_batch(),
    ensures
        !output_at(initial, events, j).is_pending_batch(),
{
    let before = state_at(initial, events, i as nat);
    assert(events[i] is Poll);
    assert(events[j] is Poll);
    lemma_batch_respects_configuration(before, events[i]->Poll_loaded, events[i]->Poll_found);
    assert(state_at(initial, events, (i + 1) as nat) == step(before, events[i]).0);
    lemma_pending_stays_sent(initial, events, (i + 1) as nat, j as nat);
    if output_at(initial, events, j).is_pending_batch() {
        lemma_batch_respects_configuration(
            state_at(initial, events, j as nat),
            events[j]->Poll_loaded,
            events[j]->Poll_found,
        );
    }
}

/// A pending block does not move the client on.
///
/// Take a batch with a pending block and the next batch of settled blocks of a run, with no
/// configuration and no invalidation between them. The client's position before the second
/// is what it was before the first; and where storage is faithful at both, the second batch
/// starts with the block that has the pending block's number.
pub proof fn lemma_pending_never_advances(
    initial: ProducerState,
    events: Seq<Event>,
    i: int,
    j: int,
)
    requires
        0 <= i < j < events.len(),
        output_at(initial, events, i).is_pending_batch(),
        output_at(initial, events, j).is_settled_batch(),
        forall|k: int| i < k < j ==> quiet_at(initial, events, k),
    ensures
        next_number(state_at(initial, events, j as nat)) == next_number(
            state_at(initial, events, i as nat),
        ),
        faithful_at(initial, events, i) && faithful_at(initial, events, j) ==> {
            let pending = output_at(initial, events, i)->Batch_0;
            let settled = output_at(initial, events, j)->Batch_0;
            settled.cursors.first().number == pending.cursors.first().number
        },
{
    let before = state_at(initial, events, i as nat);
    assert(state_at(initial, events, (i + 1) as nat) == step(before, events[i]).0);
    lemma_quiet_step(before, events[i]);
    lemma_position_stays(initial, events, (i + 1) as nat, j as nat);
    if faithful_at(initial, events, i) && faithful_at(initial, events, j) {
        lemma_batches_in_order(initial, events, i, j);
        let pending = output_at(initial, events, i)->Batch_0;
        match events[i] {
            Event::Poll { loaded, found } => {
                lemma_batch_respects_configuration(before, loaded, found);
            },
            _ => {},
        }
    }
}

/// A storage that answers with the block that was asked for is faithful.
///
/// Let every cursor that `storage` may report for a number carry that number. Then the
/// answers that it may give to a poll are faithful in the sense of the guarantees above.
pub proof fn lemma_numbered_storage_is_faithful<R: StorageReader>(
    storage: &R,
    state: ProducerState,
    loaded: IngestionState,
    found: Seq<GlobalBlockId>,
)
    requires
        numbered(storage),
        state.configuration is Some,
        answers_poll(storage, state, loaded, found),
    ensures
        faithful(state, Event::Poll { loaded, found }),
{
    let lookup = state.configuration.unwrap().lookup(state.tips(loaded));
    assert forall|k: int| 0 <= k < found.len() implies (#[trigger] found[k]).number == next_number(
        state,
    ) + k by {
        assert(canonical_at(storage, (lookup.first_number() + k) as u64, Ok(Some(found[k]))));
    }
    let event = Event::Poll { loaded, found };
    assert(event->Poll_found == found);
}

} // verus!
