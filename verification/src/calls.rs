//! Runs of calls of a cursor producer.
//!
//! Whatever is called on a producer, in whatever order, the producer goes through a run of
//! events as [`crate::trace`] describes them. So what holds of every run holds of the batches
//! and invalidations that the calls hand out.

use vstd::prelude::*;
use crate::block::GlobalBlockId;
use crate::cursor_producer::SequentialCursorProducer;
use crate::reads::{answers_poll, reads_tips};
use crate::resolve::lemma_invalidation_goes_back;
use crate::state::{IngestionState, ProducerState};
use crate::storage::{StorageReader, numbered};
use crate::stream::{
    Batch, DataFinality, IngestionMessage, IngestionResponse, ReconfigureResponse,
    StreamConfiguration, StreamError,
};
use crate::trace::{
    Event, Output, faithful, faithful_at, lemma_batches_follow_invalidation,
    lemma_batches_in_order, lemma_numbered_storage_is_faithful, lemma_one_pending_batch,
    lemma_pending_never_advances, output_at, quiet_at, state_at, steady_at, step,
};

verus! {

/// One call of a producer that went well, with what it answered.
pub enum Call<F> {
    /// `next_cursor` or `poll_next`, with the batch that it gave, if it gave one.
    Poll(Option<Batch>),
    /// `handle_ingestion_message`, with the message and the answer.
    Message(IngestionMessage, IngestionResponse),
    /// `reconfigure`, with the configuration and the answer. The starting cursor was not
    /// missing.
    Reconfigure(StreamConfiguration<F>, ReconfigureResponse),
}

impl<F> Call<F> {
    /// What the client hears of the call.
    pub open spec fn said(self) -> Output {
        match self {
            Call::Poll(Some(batch)) => Output::Batch(batch),
            Call::Poll(None) => Output::Nothing,
            Call::Message(_, IngestionResponse::Invalidate(cursor)) => Output::Invalidate(cursor),
            Call::Message(_, IngestionResponse::Valid) => Output::Nothing,
            Call::Reconfigure(_, ReconfigureResponse::Invalidate(cursor)) => Output::Invalidate(
                cursor,
            ),
            Call::Reconfigure(_, _) => Output::Nothing,
        }
    }

    /// The call is no configuration, and the client hears nothing of it but, at most, a
    /// pending block.
    pub open spec fn quiet(self) -> bool {
        &&& !(self is Reconfigure)
        &&& !(self.said() is Invalidate)
        &&& !self.said().is_settled_batch()
    }

    /// The call is no configuration, and it invalidates nothing.
    pub open spec fn steady(self) -> bool {
        &&& !(self is Reconfigure)
        &&& !(self.said() is Invalidate)
    }
}

/// The call `call` has made `after` of the producer `before`, as the contract of the method
/// called says.
pub open spec fn calls_to<R: StorageReader, F>(
    before: &SequentialCursorProducer<R>,
    call: Call<F>,
    after: &SequentialCursorProducer<R>,
) -> bool {
    match call {
        Call::Poll(batch) => before.polls_to(after, batch),
        Call::Message(message, response) => before.ingests_to(message, after, response),
        Call::Reconfigure(configuration, response) => {
            &&& response != ReconfigureResponse::MissingStartingCursor
            &&& before.reconfigures_to(
                &configuration,
                after,
                Ok::<_, StreamError<R::Error>>(response),
            )
        },
    }
}

/// The producer has gone through `producers`, one call of `calls` after the other.
pub open spec fn linked<R: StorageReader, F>(
    producers: Seq<SequentialCursorProducer<R>>,
    calls: Seq<Call<F>>,
) -> bool {
    &&& producers.len() == calls.len() + 1
    &&& forall|k: int|
        0 <= k < calls.len() ==> calls_to(&producers[k], #[trigger] calls[k], &producers[k + 1])
}

/// A call is an event: the producer takes the step of an event of the same kind, and the
/// client hears what the event says. Where storage answers with the blocks that were asked
/// for, the event is faithful.
pub proof fn lemma_call_is_an_event<R: StorageReader, F>(
    before: &SequentialCursorProducer<R>,
    call: Call<F>,
    after: &SequentialCursorProducer<R>,
) -> (event: Event)
    requires
        calls_to(before, call, after),
    ensures
        step(before@, event) == (after@, call.said()),
        after.storage() == before.storage(),
        event is Reconfigure <==> call is Reconfigure,
        event is Poll <==> call is Poll,
        numbered(before.storage()) ==> faithful(before@, event),
{
    match call {
        Call::Poll(batch) => {
            let (loaded, found) = choose|loaded: IngestionState, found: Seq<GlobalBlockId>|
                {
                    &&& answers_poll(before.storage(), before@, loaded, found)
                    &&& #[trigger] before@.poll(loaded, found) == (after@, batch)
                };
            if before@.configuration is Some {
                if numbered(before.storage()) {
                    lemma_numbered_storage_is_faithful(before.storage(), before@, loaded, found);
                }
                Event::Poll { loaded, found }
            } else {
                let event = Event::Poll { loaded, found: Seq::empty() };
                assert(event->Poll_found.len() == 0);
                event
            }
        },
        Call::Message(message, response) => {
            let loaded = choose|loaded: IngestionState|
                {
                    &&& before@.ingestion_state is None ==> reads_tips(before.storage(), loaded)
                    &&& #[trigger] before@.ingest(loaded, message) == (after@, response)
                };
            Event::Message { loaded, message }
        },
        Call::Reconfigure(configuration, response) => {
            let current = after@.current();
            match response {
                ReconfigureResponse::Invalidate(cursor) => {
                    lemma_invalidation_goes_back(
                        before.storage(),
                        configuration.starting_cursor,
                        current,
                        cursor,
                    );
                },
                _ => {},
            }
            Event::Reconfigure {
                finality: configuration.finality,
                batch_size: configuration.batch_size,
                current,
                invalidated: response is Invalidate,
            }
        },
    }
}

/// The first `k` events of a run decide the state before the event `k`: what comes after
/// does not count.
proof fn lemma_state_of_longer_run(
    initial: ProducerState,
    events: Seq<Event>,
    event: Event,
    k: nat,
)
    requires
        k <= events.len(),
    ensures
        state_at(initial, events.push(event), k) == state_at(initial, events, k),
    decreases k,
{
    if k > 0 {
        lemma_state_of_longer_run(initial, events, event, (k - 1) as nat);
        assert(events.push(event)[k - 1] == events[k - 1]);
    }
}

/// Calls are a run: the producer that goes through `producers` by the calls `calls` goes
/// through the states of a run of as many events, each of the kind of its call, and the
/// client hears of each call what its event says. Where storage answers with the blocks that
/// were asked for, the run is faithful.
pub proof fn lemma_calls_are_a_run<R: StorageReader, F>(
    producers: Seq<SequentialCursorProducer<R>>,
    calls: Seq<Call<F>>,
) -> (events: Seq<Event>)
    requires
        linked(producers, calls),
    ensures
        events.len() == calls.len(),
        forall|k: int|
            0 <= k <= calls.len() ==> #[trigger] state_at(producers[0]@, events, k as nat)
                == producers[k]@,
        forall|k: int|
            0 <= k <= calls.len() ==> (#[trigger] producers[k]).storage()
                == producers[0].storage(),
        forall|k: int|
            0 <= k < calls.len() ==> {
                &&& #[trigger] output_at(producers[0]@, events, k) == calls[k].said()
                &&& events[k] is Reconfigure <==> calls[k] is Reconfigure
                &&& events[k] is Poll <==> calls[k] is Poll
                &&& numbered(producers[0].storage()) ==> faithful_at(producers[0]@, events, k)
            },
    decreases calls.len(),
{
    let initial = producers[0]@;
    if calls.len() == 0 {
        Seq::empty()
    } else {
        let n = calls.len() - 1;
        let earlier = lemma_calls_are_a_run(producers.drop_last(), calls.drop_last());
        assert(producers.drop_last()[0] == producers[0]);
        assert(calls_to(&producers[n], calls[n], &producers[n + 1]));
        let event = lemma_call_is_an_event(&producers[n], calls[n], &producers[n + 1]);
        let events = earlier.push(event);
        assert(state_at(initial, earlier, n as nat) == producers[n]@) by {
            assert(producers.drop_last()[n] == producers[n]);
        }
        assert(producers[n].storage() == producers[0].storage()) by {
            assert(producers.drop_last()[n] == producers[n]);
        }
        assert forall|k: int| 0 <= k <= calls.len() implies #[trigger] state_at(
            initial,
            events,
            k as nat,
        ) == producers[k]@ by {
            if k <= n {
                lemma_state_of_longer_run(initial, earlier, event, k as nat);
                assert(producers.drop_last()[k] == producers[k]);
                assert(state_at(initial, earlier, k as nat) == producers[k]@);
            } else {
                lemma_state_of_longer_run(initial, earlier, event, n as nat);
                assert(events[n] == event);
            }
        }
        assert forall|k: int| 0 <= k <= calls.len() implies (#[trigger] producers[k]).storage()
            == producers[0].storage() by {
            if k <= n {
                assert(producers.drop_last()[k] == producers[k]);
            }
        }
        assert forall|k: int| 0 <= k < calls.len() implies {
            &&& #[trigger] output_at(initial, events, k) == calls[k].said()
            &&& events[k] is Reconfigure <==> calls[k] is Reconfigure
            &&& events[k] is Poll <==> calls[k] is Poll
            &&& numbered(producers[0].storage()) ==> faithful_at(initial, events, k)
        } by {
            lemma_state_of_longer_run(initial, earlier, event, k as nat);
            if k < n {
                assert(events[k] == earlier[k]);
                assert(calls.drop_last()[k] == calls[k]);
                assert(output_at(initial, earlier, k) == calls[k].said());
            } else {
                assert(events[k] == event);
            }
        }
        events
    }
}

/// Batches come in the order of the chain.
///
/// Let storage answer with the blocks that were asked for. Take two polls that gave a batch,
/// with nothing but quiet calls between them: no configuration, no invalidation and no batch
/// of settled blocks. Then the second batch starts right after the last block of the first;
/// after a pending block, it starts with that same block once more. So the last block of the
/// first batch is never above the first block of the second.
pub proof fn lemma_polls_give_batches_in_order<R: StorageReader, F>(
    producers: Seq<SequentialCursorProducer<R>>,
    calls: Seq<Call<F>>,
    i: int,
    j: int,
)
    requires
        linked(producers, calls),
        numbered(producers[0].storage()),
        0 <= i < j < calls.len(),
        calls[i] matches Call::Poll(Some(_)),
        calls[j] matches Call::Poll(Some(_)),
        forall|k: int| i < k < j ==> (#[trigger] calls[k]).quiet(),
    ensures
        ({
            let first = calls[i]->Poll_0->Some_0;
            let second = calls[j]->Poll_0->Some_0;
            &&& first.cursors.len() > 0
            &&& second.cursors.len() > 0
            &&& first.cursors.last().number <= second.cursors.first().number
            &&& second.cursors.first().number == if first.finality
                == DataFinality::DataStatusPending {
                first.cursors.last().number as int
            } else {
                first.cursors.last().number + 1
            }
        }),
{
    let initial = producers[0]@;
    let events = lemma_calls_are_a_run(producers, calls);
    assert(output_at(initial, events, i) == calls[i].said());
    assert(output_at(initial, events, j) == calls[j].said());
    assert forall|k: int| i < k < j implies quiet_at(initial, events, k) by {
        assert(output_at(initial, events, k) == calls[k].said());
        assert(calls[k].quiet());
    }
    lemma_batches_in_order(initial, events, i, j);
}

/// After an invalidation, the client gets only blocks above the invalidated cursor.
///
/// Let storage answer with the blocks that were asked for. Take a call that was answered
/// with an invalidation, an ingestion message or a configuration, and a later poll that gave
/// a batch, with no configuration and no further invalidation between them. Then every block
/// of the batch has a number above that of the invalidation's cursor.
pub proof fn lemma_polls_follow_invalidation<R: StorageReader, F>(
    producers: Seq<SequentialCursorProducer<R>>,
    calls: Seq<Call<F>>,
    i: int,
    j: int,
)
    requires
        linked(producers, calls),
        numbered(producers[0].storage()),
        0 <= i < j < calls.len(),
        calls[i].said() is Invalidate,
        calls[j] matches Call::Poll(Some(_)),
        forall|k: int| i < k < j ==> (#[trigger] calls[k]).steady(),
    ensures
        ({
            let cursor = calls[i].said()->Invalidate_0;
            let batch = calls[j]->Poll_0->Some_0;
            forall|k: int|
                0 <= k < batch.cursors.len() ==> (#[trigger] batch.cursors[k]).number
                    > cursor.number
        }),
{
    let initial = producers[0]@;
    let events = lemma_calls_are_a_run(producers, calls);
    assert(output_at(initial, events, i) == calls[i].said());
    assert(output_at(initial, events, j) == calls[j].said());
    assert forall|k: int| i < k < j implies steady_at(initial, events, k) by {
        assert(output_at(initial, events, k) == calls[k].said());
        assert(calls[k].steady());
    }
    lemma_batches_follow_invalidation(initial, events, i, j);
}

/// A pending block goes out once.
///
/// Of two polls with nothing but polls between them, at most one gives a batch with a pending
/// block: only an ingestion message or a configuration brings the next one.
pub proof fn lemma_polls_give_one_pending_batch<R: StorageReader, F>(
    producers: Seq<SequentialCursorProducer<R>>,
    calls: Seq<Call<F>>,
    i: int,
    j: int,
)
    requires
        linked(producers, calls),
        0 <= i < j < calls.len(),
        forall|k: int| i <= k <= j ==> (#[trigger] calls[k]) is Poll,
        calls[i].said().is_pending_batch(),
    ensures
        !calls[j].said().is_pending_batch(),
{
    let initial = producers[0]@;
    let events = lemma_calls_are_a_run(producers, calls);
    assert(output_at(initial, events, i) == calls[i].said());
    assert(output_at(initial, events, j) == calls[j].said());
    assert forall|k: int| i <= k <= j implies events[k] is Poll by {
        assert(output_at(initial, events, k) == calls[k].said());
        assert(calls[k] is Poll);
    }
    lemma_one_pending_batch(initial, events, i, j);
}

/// A pending block does not move the client on.
///
/// Take a poll that gave a pending block and the next poll that gave settled blocks, with
/// nothing but quiet calls between them. The client's position before the second is what it
/// was before the first; and where storage answers with the blocks that were asked for, the
/// second batch starts with the block that has the pending block's number.
pub proof fn lemma_pending_poll_never_advances<R: StorageReader, F>(
    producers: Seq<SequentialCursorProducer<R>>,
    calls: Seq<Call<F>>,
    i: int,
    j: int,
)
    requires
        linked(producers, calls),
        0 <= i < j < calls.len(),
        calls[i].said().is_pending_batch(),
        calls[j].said().is_settled_batch(),
        forall|k: int| i < k < j ==> (#[trigger] calls[k]).quiet(),
    ensures
        producers[j]@.current() matches Some(position) ==> producers[i]@.current() matches Some(
            before,
        ) && position.number == before.number,
        producers[j]@.current() is None ==> producers[i]@.current() is None,
        numbered(producers[0].storage()) ==> {
            let pending = calls[i].said()->Batch_0;
            let settled = calls[j].said()->Batch_0;
            settled.cursors.first().number == pending.cursors.first().number
        },
{
    let initial = producers[0]@;
    let events = lemma_calls_are_a_run(producers, calls);
    assert(output_at(initial, events, i) == calls[i].said());
    assert(output_at(initial, events, j) == calls[j].said());
    assert(state_at(initial, events, i as nat) == producers[i]@);
    assert(state_at(initial, events, j as nat) == producers[j]@);
    assert forall|k: int| i < k < j implies quiet_at(initial, events, k) by {
        assert(output_at(initial, events, k) == calls[k].said());
        assert(calls[k].quiet());
    }
    lemma_pending_never_advances(initial, events, i, j);
    if numbered(producers[0].storage()) {
        assert(faithful_at(initial, events, i));
        assert(faithful_at(initial, events, j));
    }
}

} // verus!
