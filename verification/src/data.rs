//! The stream of responses of one subscription.
//!
//! Three sources feed a subscription: the client's configurations, the node's ingestion
//! events, and the batches of the cursor producer. This module holds what is decided about
//! them: which source has its turn, what each event does to the producers, and which response
//! goes out for it. Waiting for the sources and building the blocks of a batch is the
//! caller's part.

use vstd::prelude::*;
use crate::block::GlobalBlockId;
use crate::cursor_producer::SequentialCursorProducer;
use crate::reads::fails_tips;
use crate::storage::StorageReader;
use crate::stream::{
    Batch, BatchCursor, DataFinality, IngestionMessage, IngestionResponse, InternalError,
    ReconfigureResponse, StreamConfiguration, StreamError,
};

verus! {

/// The client must drop the data that it holds after `cursor`.
#[derive(Clone, Debug, PartialEq, Eq)]
pub struct Invalidate {
    pub cursor: Option<GlobalBlockId>,
}

/// One batch of blocks.
#[derive(Clone, Debug, PartialEq, Eq)]
pub struct Data {
    /// The cursor that the client had reached before the batch.
    pub cursor: Option<GlobalBlockId>,
    /// The cursor of the last block of the batch.
    pub end_cursor: Option<GlobalBlockId>,
    /// How settled the blocks are, as a number: see [`DataFinality::number`].
    pub finality: i32,
    /// The encoded blocks, one for each cursor of the batch, in order.
    pub data: Vec<Vec<u8>>,
}

/// The stream id that responses carry before the first configuration.
pub const FIRST_STREAM_ID: u64 = 0;

#[derive(Clone, Debug, PartialEq, Eq)]
pub enum Message {
    Data(Data),
    Invalidate(Invalidate),
}

/// What goes out to the client.
#[derive(Clone, Debug, PartialEq, Eq)]
pub struct StreamDataResponse {
    /// The configuration that the response belongs to.
    pub stream_id: u64,
    pub message: Option<Message>,
}

/// The three sources of a subscription, highest priority first.
#[derive(Clone, Copy, Debug, PartialEq, Eq, Structural)]
pub enum Source {
    Configuration,
    Ingestion,
    BatchCursor,
}

/// What a source of events has to offer at the moment.
#[derive(Clone, Copy, Debug, PartialEq, Eq, Structural)]
pub enum Readiness {
    /// No event yet.
    Waiting,
    /// An event is there.
    Ready,
    /// No event will come any more.
    Exhausted,
}

/// What a subscription does next.
#[derive(Clone, Copy, Debug, PartialEq, Eq, Structural)]
pub enum Turn {
    /// Take the next event of the given source and handle it. For the cursor producer this
    /// means to poll it, and to wait for all three sources where it has no batch.
    Handle(Source),
    /// The subscription is over.
    End,
}

/// Whose turn it is, by strict priority.
///
/// A configuration that is there goes first, whatever else is ready. Then comes an ingestion
/// event that is there. Only when neither source has anything to offer, the cursor producer is
/// asked for a batch. A source that has run out ends the subscription as soon as no source
/// before it has an event.
pub open spec fn spec_next_turn(configuration: Readiness, ingestion: Readiness) -> Turn {
    match configuration {
        Readiness::Ready => Turn::Handle(Source::Configuration),
        Readiness::Exhausted => Turn::End,
        Readiness::Waiting => match ingestion {
            Readiness::Ready => Turn::Handle(Source::Ingestion),
            Readiness::Exhausted => Turn::End,
            Readiness::Waiting => Turn::Handle(Source::BatchCursor),
        },
    }
}

/// Whose turn it is, by strict priority: see [`spec_next_turn`]. A configuration that is
/// there is handled before anything else, and the cursor producer has its turn only when
/// both other sources wait.
#[verifier::when_used_as_spec(spec_next_turn)]
pub fn next_turn(configuration: Readiness, ingestion: Readiness) -> (turn: Turn)
    ensures
        turn == spec_next_turn(configuration, ingestion),
        configuration == Readiness::Ready ==> turn == Turn::Handle(Source::Configuration),
        turn == Turn::Handle(Source::Ingestion) ==> configuration == Readiness::Waiting,
        turn == Turn::Handle(Source::BatchCursor) ==> configuration == Readiness::Waiting
            && ingestion == Readiness::Waiting,
{
    match configuration {
        Readiness::Ready => Turn::Handle(Source::Configuration),
        Readiness::Exhausted => Turn::End,
        Readiness::Waiting => match ingestion {
            Readiness::Ready => Turn::Handle(Source::Ingestion),
            Readiness::Exhausted => Turn::End,
            Readiness::Waiting => Turn::Handle(Source::BatchCursor),
        },
    }
}

/// The part of a batch producer that a configuration reaches. A batch producer builds the
/// blocks of a batch; what it makes of a configuration is its own business.
pub trait BatchProducer {
    type Filter;

    type Error;

    fn reconfigure(&mut self, configuration: &StreamConfiguration<Self::Filter>) -> Result<
        (),
        StreamError<Self::Error>,
    >;
}

/// What handing a configuration to both producers comes to, given their answers: the
/// configuration's stream id with the cursor producer's answer, or the first failure.
pub open spec fn configuration_handled<E>(
    stream_id: u64,
    cursor_answer: Result<ReconfigureResponse, StreamError<E>>,
    batch_answer: Result<(), StreamError<E>>,
) -> Result<(u64, ReconfigureResponse), StreamError<E>> {
    match cursor_answer {
        Err(error) => Err(error),
        Ok(response) => match batch_answer {
            Err(error) => Err(error),
            Ok(_) => Ok((stream_id, response)),
        },
    }
}

/// Hands a configuration to the cursor producer and then to the batch producer, and returns
/// the configuration's stream id with the cursor producer's answer.
///
/// A failure that came in place of a configuration is handed back, and neither producer is
/// reached. A failure of the cursor producer is handed back, and the batch producer is not
/// reached. Whatever else the cursor producer answers, the batch producer gets the
/// configuration next, and its failure is handed back.
pub fn handle_configuration_message<R, B>(
    cursor_producer: &mut SequentialCursorProducer<R>,
    batch_producer: &mut B,
    configuration_message: Result<StreamConfiguration<B::Filter>, StreamError<R::Error>>,
) -> (r: Result<(u64, ReconfigureResponse), StreamError<R::Error>>) where
    R: StorageReader,
    B: BatchProducer<Error = R::Error>,

    ensures
        match configuration_message {
            Err(error) => {
                &&& r == Err::<(u64, ReconfigureResponse), StreamError<R::Error>>(error)
                &&& old(cursor_producer).untouched(final(cursor_producer))
                &&& *final(batch_producer) == *old(batch_producer)
            },
            Ok(configuration) => exists|
                cursor_answer: Result<ReconfigureResponse, StreamError<R::Error>>,
                batch_answer: Result<(), StreamError<R::Error>>,
            |
                {
                    &&& #[trigger] configuration_handled(
                        configuration.stream_id,
                        cursor_answer,
                        batch_answer,
                    ) == r
                    &&& old(cursor_producer).reconfigures_to(
                        &configuration,
                        final(cursor_producer),
                        cursor_answer,
                    )
                    &&& match cursor_answer {
                        Err(_) => *final(batch_producer) == *old(batch_producer),
                        // The batch producer was handed the configuration: `batch_answer` is
                        // what its `reconfigure` answered, and it is left as that call left it.
                        Ok(_) => exists|producer: &mut B|
                            {
                                &&& mut_ref_current(producer) == *old(batch_producer)
                                &&& mut_ref_future(producer) == *final(batch_producer)
                                &&& #[trigger] call_ensures(
                                    B::reconfigure,
                                    (producer, &configuration),
                                    batch_answer,
                                )
                            },
                    }
                },
        },
{
    let configuration_message = configuration_message?;
    let cursor_answer = cursor_producer.reconfigure(&configuration_message);
    let response = match cursor_answer {
        Ok(response) => response,
        Err(error) => {
            assert(configuration_handled(
                configuration_message.stream_id,
                cursor_answer,
                Ok::<(), StreamError<R::Error>>(()),
            ) == Err::<(u64, ReconfigureResponse), StreamError<R::Error>>(error));
            return Err(error);
        },
    };
    let batch_answer = batch_producer.reconfigure(&configuration_message);
    assert(configuration_handled(configuration_message.stream_id, cursor_answer, batch_answer)
        == match batch_answer {
        Ok(_) => Ok((configuration_message.stream_id, response)),
        Err(error) => Err(error),
    });
    batch_answer?;
    Ok((configuration_message.stream_id, response))
}

/// Hands an ingestion message to the cursor producer and returns its answer. A failure that
/// came in place of a message is handed back, and the producer is left alone. A message that
/// the producer cannot take in, because storage fails, still wakes the task that waits.
pub fn handle_ingestion_message<R: StorageReader>(
    cursor_producer: &mut SequentialCursorProducer<R>,
    ingestion_message: Result<IngestionMessage, StreamError<R::Error>>,
) -> (r: Result<IngestionResponse, StreamError<R::Error>>)
    ensures
        match ingestion_message {
            Err(error) => {
                &&& r == Err::<IngestionResponse, StreamError<R::Error>>(error)
                &&& old(cursor_producer).untouched(final(cursor_producer))
            },
            Ok(message) => {
                &&& old(cursor_producer)@.ingestion_state is Some ==> r is Ok
                &&& match r {
                    Ok(response) => old(cursor_producer).ingests_to(
                        message,
                        final(cursor_producer),
                        response,
                    ),
                    Err(error) => {
                        &&& error matches StreamError::Internal(InternalError::Source(source))
                        &&& fails_tips(old(cursor_producer).storage(), source)
                        &&& final(cursor_producer)@ == old(cursor_producer)@
                        &&& final(cursor_producer).storage() == old(cursor_producer).storage()
                        &&& old(cursor_producer).wakes_to(final(cursor_producer))
                    },
                }
            },
        },
{
    let ingestion_message = ingestion_message?;
    cursor_producer.handle_ingestion_message(&ingestion_message)
}

/// A batch cursor taken apart: what the batch producer needs to build the blocks, and what
/// the response says about them.
#[derive(Debug, PartialEq, Eq)]
pub struct BatchRequest {
    /// The cursor that the client had reached before the batch.
    pub start_cursor: Option<GlobalBlockId>,
    /// The blocks to build, in order.
    pub cursors: Vec<GlobalBlockId>,
    /// The last of `cursors`.
    pub end_cursor: Option<GlobalBlockId>,
    pub finality: DataFinality,
}

impl BatchRequest {
    /// The request is the one for `batch`: it asks for the blocks of the batch, in order, it
    /// ends with the last of them, and it starts where the batch starts.
    pub open spec fn is_for(&self, batch: Batch) -> bool {
        &&& self.start_cursor == batch.start
        &&& self.cursors@ =~= batch.cursors
        &&& self.finality == batch.finality
        &&& self.end_cursor == if batch.cursors.len() > 0 {
            Some(batch.cursors.last())
        } else {
            None
        }
    }

    /// `message` is the data message for this request and the encoded blocks `data`.
    pub open spec fn gives(&self, data: Vec<Vec<u8>>, message: Data) -> bool {
        &&& message.cursor == self.start_cursor
        &&& message.end_cursor == self.end_cursor
        &&& message.finality == self.finality.spec_number()
        &&& message.data == data
    }

    /// Takes a batch cursor apart.
    pub fn new(batch_cursor: BatchCursor) -> (request: BatchRequest)
        ensures
            request.is_for(batch_cursor@),
    {
        match batch_cursor {
            BatchCursor::Finalized(start_cursor, cursors) => {
                let end_cursor = if cursors.len() > 0 {
                    Some(cursors[cursors.len() - 1])
                } else {
                    None
                };
                BatchRequest {
                    start_cursor,
                    cursors,
                    end_cursor,
                    finality: DataFinality::DataStatusFinalized,
                }
            },
            BatchCursor::Accepted(start_cursor, cursor) => BatchRequest {
                start_cursor,
                cursors: vec![cursor],
                end_cursor: Some(cursor),
                finality: DataFinality::DataStatusAccepted,
            },
            BatchCursor::Pending(start_cursor, cursor) => BatchRequest {
                start_cursor,
                cursors: vec![cursor],
                end_cursor: Some(cursor),
                finality: DataFinality::DataStatusPending,
            },
        }
    }

    /// The data message for the batch, given its encoded blocks.
    pub fn into_data(self, data: Vec<Vec<u8>>) -> (message: Data)
        ensures
            self.gives(data, message),
    {
        Data {
            cursor: self.start_cursor,
            end_cursor: self.end_cursor,
            finality: self.finality.number(),
            data,
        }
    }
}

/// The request for the batch cursor that the cursor producer handed out. A failure that came
/// in place of a batch cursor is handed on, and no blocks are to be built.
pub fn batch_request<E>(batch_cursor: Result<BatchCursor, StreamError<E>>) -> (r: Result<
    BatchRequest,
    StreamError<E>,
>)
    ensures
        match batch_cursor {
            Err(error) => r == Err::<BatchRequest, StreamError<E>>(error),
            Ok(batch_cursor) => r matches Ok(request) && request.is_for(batch_cursor@),
        },
{
    Ok(BatchRequest::new(batch_cursor?))
}

/// The data message for `request`, given what the batch producer made of it: the encoded
/// blocks, or a failure, which is handed on.
pub fn batch_data<E>(request: BatchRequest, blocks: Result<Vec<Vec<u8>>, StreamError<E>>) -> (r:
    Result<Data, StreamError<E>>)
    ensures
        match blocks {
            Err(error) => r == Err::<Data, StreamError<E>>(error),
            Ok(data) => r matches Ok(message) && request.gives(data, message),
        },
{
    Ok(request.into_data(blocks?))
}

/// What a subscription does once an event has been handled.
#[derive(Debug, PartialEq, Eq)]
pub enum Outcome<E> {
    /// Nothing goes out.
    Continue,
    /// The response goes out.
    Send(StreamDataResponse),
    /// The failure goes out, and the subscription is over.
    Fail(StreamError<E>),
}

/// The text of the failure that a client gets for a starting cursor that does not exist.
pub open spec fn missing_starting_cursor() -> Seq<char> {
    "the specified starting cursor doesn't exist"@
}

/// The response that tells a client to drop what it holds after `cursor`.
pub open spec fn invalidate_response(stream_id: u64, cursor: GlobalBlockId) -> StreamDataResponse {
    StreamDataResponse {
        stream_id,
        message: Some(Message::Invalidate(Invalidate { cursor: Some(cursor) })),
    }
}

/// What follows a configuration that the producers have handled, with the stream id that
/// responses carry from then on.
///
/// A configuration that was taken in makes its stream id the current one. A valid starting
/// cursor needs no response; one that was replaced by an ancestor is answered with an
/// invalidation, under the new stream id; one that does not exist ends the subscription with
/// an invalid request. A failure ends the subscription and leaves the stream id alone.
pub open spec fn after_configuration<E>(
    stream_id: u64,
    result: Result<(u64, ReconfigureResponse), StreamError<E>>,
) -> (u64, Option<StreamDataResponse>) {
    match result {
        Ok((new_stream_id, ReconfigureResponse::Invalidate(cursor))) => (
            new_stream_id,
            Some(invalidate_response(new_stream_id, cursor)),
        ),
        Ok((new_stream_id, _)) => (new_stream_id, None),
        Err(_) => (stream_id, None),
    }
}

/// What follows a configuration that the producers have handled: see [`after_configuration`].
pub fn on_configuration<E>(
    stream_id: &mut u64,
    result: Result<(u64, ReconfigureResponse), StreamError<E>>,
) -> (outcome: Outcome<E>)
    ensures
        *final(stream_id) == after_configuration(*old(stream_id), result).0,
        match result {
            Ok((_, ReconfigureResponse::Valid)) => outcome is Continue,
            Ok((_, ReconfigureResponse::Invalidate(_))) => outcome matches Outcome::Send(response)
                && Some(response) == after_configuration(*old(stream_id), result).1,
            Ok((_, ReconfigureResponse::MissingStartingCursor)) => outcome matches Outcome::Fail(
                StreamError::InvalidRequest(message),
            ) && message@ == missing_starting_cursor(),
            Err(error) => outcome == Outcome::Fail(error),
        },
{
    match result {
        Ok((new_stream_id, response)) => {
            *stream_id = new_stream_id;
            match response {
                ReconfigureResponse::Valid => Outcome::Continue,
                ReconfigureResponse::MissingStartingCursor => Outcome::Fail(
                    StreamError::invalid_request(
                        "the specified starting cursor doesn't exist".to_string(),
                    ),
                ),
                ReconfigureResponse::Invalidate(cursor) => Outcome::Send(
                    StreamDataResponse {
                        stream_id: new_stream_id,
                        message: Some(Message::Invalidate(Invalidate { cursor: Some(cursor) })),
                    },
                ),
            }
        },
        Err(error) => Outcome::Fail(error),
    }
}

/// What follows an ingestion message that the cursor producer has handled: an invalidation
/// goes out to the client, anything else does not concern it, and a failure ends the
/// subscription.
pub fn on_ingestion<E>(stream_id: u64, result: Result<IngestionResponse, StreamError<E>>) -> (outcome:
    Outcome<E>)
    ensures
        match result {
            Ok(IngestionResponse::Invalidate(cursor)) => outcome == Outcome::<E>::Send(
                invalidate_response(stream_id, cursor),
            ),
            Ok(IngestionResponse::Valid) => outcome is Continue,
            Err(error) => outcome == Outcome::Fail(error),
        },
{
    match result {
        Ok(IngestionResponse::Invalidate(cursor)) => Outcome::Send(
            StreamDataResponse {
                stream_id,
                message: Some(Message::Invalidate(Invalidate { cursor: Some(cursor) })),
            },
        ),
        Ok(IngestionResponse::Valid) => Outcome::Continue,
        Err(error) => Outcome::Fail(error),
    }
}

/// What follows a batch that the batch producer has built: the data goes out under the
/// current stream id, and a failure ends the subscription.
pub fn on_batch<E>(stream_id: u64, result: Result<Data, StreamError<E>>) -> (outcome: Outcome<E>)
    ensures
        match result {
            Ok(data) => outcome == Outcome::<E>::Send(
                StreamDataResponse { stream_id, message: Some(Message::Data(data)) },
            ),
            Err(error) => outcome == Outcome::Fail(error),
        },
{
    match result {
        Ok(data) => Outcome::Send(
            StreamDataResponse { stream_id, message: Some(Message::Data(data)) },
        ),
        Err(error) => Outcome::Fail(error),
    }
}

} // verus!
