//! The cursor producer: for one subscription, it decides which blocks go out next.
//!
//! Each poll looks at the tips of the chain, asks storage for the canonical cursors of the
//! next blocks, and emits at most one batch. The producer's methods are proved to take the
//! steps of [`ProducerState`], for answers that storage may give to exactly what they ask.

use std::sync::Arc;
use std::task::Waker;
use vstd::prelude::*;
use crate::block::GlobalBlockId;
use crate::reads::{answers_poll, fails_lookup, fails_tips, read_run, read_tips, reads_tips};
use crate::resolve::{Resolution, resolution_of, resolve, resolves};
use crate::state::{BatchConfiguration, IngestionState, ProducerState};
use crate::storage::StorageReader;
use crate::stream::{
    Batch, BatchCursor, IngestionMessage, IngestionResponse, InternalError, ReconfigureResponse,
    StreamConfiguration, StreamError, batch_of,
};

verus! {

/// The cursor with the lower number, and `b` where the numbers are equal.
pub open spec fn spec_lowest_cursor(a: GlobalBlockId, b: GlobalBlockId) -> GlobalBlockId {
    if a.number < b.number {
        a
    } else {
        b
    }
}

/// The cursor with the lower number, and `b` where the numbers are equal.
pub fn lowest_cursor(a: GlobalBlockId, b: GlobalBlockId) -> (lowest: GlobalBlockId)
    ensures
        lowest == spec_lowest_cursor(a, b),
{
    if a.number < b.number {
        a
    } else {
        b
    }
}

/// The handle by which a task is told to poll again: `std::task::Waker`. Nothing is known of
/// what is inside.
#[verifier::external_type_specification]
#[verifier::external_body]
pub struct ExWaker(Waker);

/// Calls `Waker::wake`, which tells the task behind the handle to poll again and uses the
/// handle up. Nothing is claimed of it.
#[verifier::external_body]
fn wake_task(waker: Waker) {
    waker.wake()
}

/// Calls `Waker::clone`, which makes another handle for the same task. Nothing is claimed of
/// it.
#[verifier::external_body]
fn clone_waker(waker: &Waker) -> Waker {
    waker.clone()
}

/// What a poll of the producer's stream gives.
#[derive(Debug, PartialEq, Eq)]
pub enum CursorPoll<E> {
    /// A batch to send, or the failure that ends the stream.
    Ready(Result<BatchCursor, StreamError<E>>),
    /// Nothing yet. The task is woken when that may have changed.
    Pending,
}

/// A cursor producer that hands out the blocks of the chain one after the other.
pub struct SequentialCursorProducer<R: StorageReader> {
    configuration: Option<BatchConfiguration>,
    ingestion_state: Option<IngestionState>,
    storage: Arc<R>,
    waker: Option<Waker>,
}

impl<R: StorageReader> View for SequentialCursorProducer<R> {
    type V = ProducerState;

    closed spec fn view(&self) -> ProducerState {
        ProducerState {
            configuration: self.configuration,
            ingestion_state: self.ingestion_state,
        }
    }
}

impl<R: StorageReader> SequentialCursorProducer<R> {
    /// The storage that the producer reads.
    pub closed spec fn storage(&self) -> &R {
        &*self.storage
    }

    /// The handle of the task that waits to be woken, if one does. The producer keeps one
    /// handle at the most.
    pub closed spec fn waker(&self) -> Option<Waker> {
        self.waker
    }

    /// Whether a task waits to be woken.
    pub open spec fn has_waker(&self) -> bool {
        self.waker() is Some
    }

    /// `copy` is what `Waker::clone` made of `waker`: another handle for the same task.
    pub closed spec fn copied(waker: &Waker, copy: Waker) -> bool {
        call_ensures(clone_waker, (waker,), copy)
    }

    /// The handle `kept` was handed to `Waker::wake`.
    pub closed spec fn woke(kept: Waker) -> bool {
        call_ensures(wake_task, (kept,), ())
    }

    /// `after` keeps no handle, and the handle that this producer kept, if it kept one, was
    /// handed to `Waker::wake`: the task that waited has been told to poll again.
    pub open spec fn wakes_to(&self, after: &Self) -> bool {
        &&& after.waker() is None
        &&& self.waker() matches Some(kept) ==> Self::woke(kept)
    }

    /// `after` is this producer as it was.
    pub open spec fn untouched(&self, after: &Self) -> bool {
        &&& after@ == self@
        &&& after.waker() == self.waker()
        &&& after.storage() == self.storage()
    }

    /// `after` and `batch` are what a poll makes of this producer: the step
    /// [`ProducerState::poll`], for answers that storage may give to what the poll asks.
    pub open spec fn polls_to(&self, after: &Self, batch: Option<Batch>) -> bool {
        &&& after.storage() == self.storage()
        &&& exists|loaded: IngestionState, found: Seq<GlobalBlockId>|
            {
                &&& answers_poll(self.storage(), self@, loaded, found)
                &&& #[trigger] self@.poll(loaded, found) == (after@, batch)
            }
    }

    /// `after` is what a poll that storage fails with `error` makes of this producer. The
    /// client's position stays. Either the tips could not be read, and nothing has changed; or
    /// the lookup that the tips call for failed, and the tips are known from now on.
    pub open spec fn fails_poll(&self, after: &Self, error: R::Error) -> bool {
        &&& after.storage() == self.storage()
        &&& self@.configuration matches Some(configuration)
        &&& after@.configuration == self@.configuration
        &&& {
            ||| {
                &&& self@.ingestion_state is None
                &&& after@.ingestion_state is None
                &&& fails_tips(self.storage(), error)
            }
            ||| exists|loaded: IngestionState, found: Seq<GlobalBlockId>|
                {
                    &&& self@.ingestion_state is None ==> reads_tips(self.storage(), loaded)
                    &&& after@.ingestion_state == Some(self@.tips(loaded))
                    &&& #[trigger] fails_lookup(
                        self.storage(),
                        configuration.lookup(self@.tips(loaded)),
                        found,
                        error,
                    )
                }
        }
    }

    /// `after` and `response` are what the ingestion message `message` makes of this
    /// producer: the step [`ProducerState::ingest`], for tips that storage may report where
    /// the producer has none. The task that waited is woken.
    pub open spec fn ingests_to(
        &self,
        message: IngestionMessage,
        after: &Self,
        response: IngestionResponse,
    ) -> bool {
        &&& after.storage() == self.storage()
        &&& self.wakes_to(after)
        &&& exists|loaded: IngestionState|
            {
                &&& self@.ingestion_state is None ==> reads_tips(self.storage(), loaded)
                &&& #[trigger] self@.ingest(loaded, message) == (after@, response)
            }
    }

    /// `after` and `r` are what a configuration makes of this producer.
    ///
    /// Storage resolves the starting cursor. Where the stream can start, the configuration
    /// replaces the old one, the client's position is the cursor found, no pending block counts
    /// as sent, and the task that waited is woken. A missing starting cursor and a failure
    /// leave the producer as it was.
    pub open spec fn reconfigures_to<F>(
        &self,
        configuration: &StreamConfiguration<F>,
        after: &Self,
        r: Result<ReconfigureResponse, StreamError<R::Error>>,
    ) -> bool {
        &&& resolves(
            self.storage(),
            configuration.starting_cursor,
            resolution_of(r, after@.current()),
        )
        &&& match resolution_of(r, after@.current()) {
            Resolution::Started { current, .. } => {
                &&& after@ == self@.reconfigure(
                    configuration.finality,
                    configuration.batch_size,
                    current,
                )
                &&& self.wakes_to(after)
                &&& after.storage() == self.storage()
            },
            _ => self.untouched(after),
        }
    }

    /// A producer without configuration, tips or waiting task.
    pub fn new(storage: Arc<R>) -> (producer: Self)
        ensures
            producer@.configuration is None,
            producer@.ingestion_state is None,
            !producer.has_waker(),
            *producer.storage() == *storage,
    {
        SequentialCursorProducer { configuration: None, storage, ingestion_state: None, waker: None }
    }

    /// The next batch, if one is ready.
    ///
    /// Without a configuration there is none, and storage is not asked. With one, the producer
    /// reads the tips where it has none, asks storage for the blocks that the tips call for,
    /// and takes the step [`ProducerState::poll`] for what storage answers. A failed read is
    /// handed on and leaves the client's position where it was. Where storage need not be
    /// asked, the call does not fail.
    pub fn next_cursor(&mut self) -> (r: Result<Option<BatchCursor>, R::Error>)
        ensures
            final(self).waker() == old(self).waker(),
            old(self)@.at_rest() ==> r is Ok,
            match r {
                Ok(batch) => old(self).polls_to(final(self), batch_of(batch)),
                Err(error) => old(self).fails_poll(final(self), error),
            },
    {
        if self.configuration.is_some() {
            self.next_cursor_with_configuration()
        } else {
            assert(self@.poll(
                IngestionState { finalized: None, accepted: None, pending: None },
                Seq::empty(),
            ) == (self@, None::<Batch>));
            Ok(None)
        }
    }

    fn next_cursor_with_configuration(&mut self) -> (r: Result<Option<BatchCursor>, R::Error>)
        requires
            old(self)@.configuration is Some,
        ensures
            final(self).waker() == old(self).waker(),
            old(self)@.at_rest() ==> r is Ok,
            match r {
                Ok(batch) => old(self).polls_to(final(self), batch_of(batch)),
                Err(error) => old(self).fails_poll(final(self), error),
            },
    {
        let state = self.get_ingestion_state()?;
        let mut configuration = self.configuration.unwrap();
        let lookup = configuration.next_lookup(&state);
        let (found, failure) = read_run(&*self.storage, lookup);
        if let Some(error) = failure {
            assert(fails_lookup(
                old(self).storage(),
                old(self)@.configuration.unwrap().lookup(old(self)@.tips(state)),
                found@,
                error,
            ));
            return Err(error);
        }
        let ghost run = found@;
        let batch = configuration.produce(lookup, found);
        self.configuration = Some(configuration);
        assert(old(self)@.poll(state, run) == (self@, batch_of(batch)));
        Ok(batch)
    }

    /// The tips of the chain. They are read from storage the first time, and kept.
    fn get_ingestion_state(&mut self) -> (r: Result<IngestionState, R::Error>)
        ensures
            final(self)@.configuration == old(self)@.configuration,
            final(self).waker() == old(self).waker(),
            final(self).storage() == old(self).storage(),
            old(self)@.ingestion_state is Some ==> r is Ok,
            match r {
                Ok(state) => {
                    &&& final(self)@.ingestion_state == Some(state)
                    &&& match old(self)@.ingestion_state {
                        Some(known) => state == known,
                        None => reads_tips(old(self).storage(), state),
                    }
                },
                Err(error) => {
                    &&& final(self)@.ingestion_state is None
                    &&& fails_tips(old(self).storage(), error)
                },
            },
    {
        match self.ingestion_state {
            Some(state) => Ok(state),
            None => {
                let state = read_tips(&*self.storage)?;
                self.ingestion_state = Some(state);
                Ok(state)
            },
        }
    }

    /// Wakes the task that waits for a batch, if one does, and forgets its handle.
    fn wake(&mut self)
        ensures
            final(self)@ == old(self)@,
            final(self).storage() == old(self).storage(),
            old(self).wakes_to(final(self)),
    {
        if let Some(waker) = self.waker.take() {
            wake_task(waker);
        }
    }

    /// Takes a client's configuration in.
    ///
    /// The starting cursor is resolved first: see [`resolve`]. A starting cursor that is
    /// missing and a failure leave the producer untouched. Otherwise the new configuration
    /// replaces the old one, the client's position is the cursor found, no pending block
    /// counts as sent, and a waiting task is woken.
    pub fn reconfigure<F>(&mut self, configuration: &StreamConfiguration<F>) -> (r: Result<
        ReconfigureResponse,
        StreamError<R::Error>,
    >)
        ensures
            old(self).reconfigures_to(configuration, final(self), r),
    {
        match resolve(&*self.storage, configuration.starting_cursor) {
            Resolution::Failed(error) => Err(error),
            Resolution::Missing => Ok(ReconfigureResponse::MissingStartingCursor),
            Resolution::Started { current, response } => {
                self.configuration = Some(
                    BatchConfiguration {
                        data_finality: configuration.finality,
                        pending_sent: false,
                        current,
                        batch_size: configuration.batch_size,
                    },
                );
                self.wake();
                Ok(response)
            },
        }
    }

    /// Takes an event of the ingestion in.
    ///
    /// The tips are read from storage first where the producer has none; if that fails, the
    /// failure is handed on and the message is not applied. Otherwise the producer takes the
    /// step [`ProducerState::ingest`]. Either way a waiting task is woken.
    pub fn handle_ingestion_message(&mut self, message: &IngestionMessage) -> (r: Result<
        IngestionResponse,
        StreamError<R::Error>,
    >)
        ensures
            old(self)@.ingestion_state is Some ==> r is Ok,
            match r {
                Ok(response) => old(self).ingests_to(*message, final(self), response),
                Err(error) => {
                    &&& error matches StreamError::Internal(InternalError::Source(source))
                    &&& fails_tips(old(self).storage(), source)
                    &&& final(self)@ == old(self)@
                    &&& final(self).storage() == old(self).storage()
                    &&& old(self).wakes_to(final(self))
                },
            },
    {
        let mut state = match self.get_ingestion_state() {
            Ok(state) => state,
            Err(error) => {
                self.wake();
                return Err(StreamError::internal(error));
            },
        };
        let ghost loaded = state;
        let mut configuration = self.configuration;
        let response = state.ingest(&mut configuration, message);
        self.ingestion_state = Some(state);
        self.configuration = configuration;
        self.wake();
        assert(old(self)@.ingest(loaded, *message) == (self@, response));
        Ok(response)
    }

    /// Polls the producer on behalf of the task behind `waker`.
    ///
    /// A batch or a failure is handed out at once, and the handle that the producer keeps
    /// stays as it is. Where nothing is ready, the producer keeps a copy of `waker` in place
    /// of the handle that it kept before, and wakes the task when a configuration or an
    /// ingestion message comes. The poll itself wakes nobody.
    pub fn poll_next(&mut self, waker: &Waker) -> (r: CursorPoll<R::Error>)
        ensures
            match r {
                CursorPoll::Ready(Ok(batch)) => {
                    &&& old(self).polls_to(final(self), Some(batch@))
                    &&& final(self).waker() == old(self).waker()
                },
                CursorPoll::Ready(Err(error)) => {
                    &&& error matches StreamError::Internal(InternalError::Source(source))
                    &&& old(self).fails_poll(final(self), source)
                    &&& final(self).waker() == old(self).waker()
                },
                CursorPoll::Pending => {
                    &&& old(self).polls_to(final(self), None)
                    &&& final(self).waker() matches Some(kept)
                    &&& Self::copied(waker, kept)
                },
            },
    {
        match self.next_cursor() {
            Err(error) => CursorPoll::Ready(Err(StreamError::internal(error))),
            Ok(None) => {
                // No new block yet: keep the handle, and wake the task after the next
                // ingestion message.
                self.waker = Some(clone_waker(waker));
                CursorPoll::Pending
            },
            Ok(Some(batch_cursor)) => CursorPoll::Ready(Ok(batch_cursor)),
        }
    }

    /// Whether the stream of batches has ended. It never does.
    pub fn is_terminated(&self) -> (terminated: bool)
        ensures
            !terminated,
    {
        false
    }
}

} // verus!
