//! The vocabulary of a subscription: what a client asks for, what the node reports, and what
//! the cursor producer answers and emits.

use vstd::prelude::*;
use crate::block::{GlobalBlockId, InvalidBlock};

verus! {

/// How settled a block has to be before a client wants to see it.
#[derive(Clone, Copy, Debug, PartialEq, Eq, Structural)]
pub enum DataFinality {
    DataStatusUnknown,
    DataStatusPending,
    DataStatusAccepted,
    DataStatusFinalized,
}

impl DataFinality {
    /// The number that stands for the finality in a message to the client: 0 for unknown, 1
    /// for pending, 2 for accepted and 3 for finalized data.
    pub open spec fn spec_number(&self) -> i32 {
        match self {
            DataFinality::DataStatusUnknown => 0,
            DataFinality::DataStatusPending => 1,
            DataFinality::DataStatusAccepted => 2,
            DataFinality::DataStatusFinalized => 3,
        }
    }

    /// The number that stands for the finality in a message to the client.
    #[verifier::when_used_as_spec(spec_number)]
    pub fn number(&self) -> (number: i32)
        ensures
            number == self.spec_number(),
    {
        match self {
            DataFinality::DataStatusUnknown => 0,
            DataFinality::DataStatusPending => 1,
            DataFinality::DataStatusAccepted => 2,
            DataFinality::DataStatusFinalized => 3,
        }
    }
}

/// What a client asks of a stream.
#[derive(Clone, Debug, PartialEq, Eq)]
pub struct StreamConfiguration<F> {
    pub batch_size: usize,
    pub stream_id: u64,
    pub finality: DataFinality,
    pub starting_cursor: Option<GlobalBlockId>,
    pub filter: F,
}

/// An event that the node reports while it ingests the chain.
#[derive(Clone, Copy, Debug, PartialEq, Eq)]
pub enum IngestionMessage {
    /// A new pending block.
    Pending(GlobalBlockId),
    /// A new accepted block.
    Accepted(GlobalBlockId),
    /// A new finalized block.
    Finalized(GlobalBlockId),
    /// The chain was reorganised: every block after the given one is gone.
    Invalidate(GlobalBlockId),
}

/// The answer to an ingestion message.
#[derive(Clone, Copy, Debug, PartialEq, Eq)]
pub enum IngestionResponse {
    /// Data that the client holds after the given cursor is not valid any more.
    Invalidate(GlobalBlockId),
    /// The data that the client holds is still valid.
    Valid,
}

/// The answer to a configuration.
#[derive(Clone, Copy, Debug, PartialEq, Eq)]
pub enum ReconfigureResponse {
    /// The starting cursor is valid: the stream goes on from it.
    Valid,
    /// The starting cursor left the canonical chain: the stream goes on from the given
    /// ancestor, and data that the client holds after it is not valid any more.
    Invalidate(GlobalBlockId),
    /// Storage does not know the starting cursor.
    MissingStartingCursor,
}

/// What failed inside the node.
#[derive(Debug, PartialEq, Eq)]
pub enum InternalError<E> {
    /// A collaborator of the stream failed.
    Source(E),
    /// Storage held a header that does not lead to a parent block.
    InvalidBlock(InvalidBlock),
}

/// Why a stream ends.
#[derive(Debug, PartialEq, Eq)]
pub enum StreamError<E> {
    /// The client's request cannot be served.
    InvalidRequest(String),
    /// The node failed.
    Internal(InternalError<E>),
}

impl<E> StreamError<E> {
    pub fn internal(source: E) -> (error: Self)
        ensures
            error == StreamError::Internal(InternalError::Source(source)),
    {
        StreamError::Internal(InternalError::Source(source))
    }

    pub fn invalid_block(invalid: InvalidBlock) -> (error: Self)
        ensures
            error == StreamError::<E>::Internal(InternalError::InvalidBlock(invalid)),
    {
        StreamError::Internal(InternalError::InvalidBlock(invalid))
    }

    pub fn invalid_request(message: String) -> (error: Self)
        ensures
            error == StreamError::<E>::InvalidRequest(message),
    {
        StreamError::InvalidRequest(message)
    }
}

/// One unit of output, as contracts speak of it: how settled its blocks are, the cursor that
/// the client had reached before it, and the cursors of its blocks in order.
pub struct Batch {
    pub finality: DataFinality,
    pub start: Option<GlobalBlockId>,
    pub cursors: Seq<GlobalBlockId>,
}

/// One unit of output: what to build and send next.
#[derive(Clone, Debug, PartialEq, Eq)]
pub enum BatchCursor {
    /// A run of finalized blocks.
    Finalized(Option<GlobalBlockId>, Vec<GlobalBlockId>),
    /// One accepted block.
    Accepted(Option<GlobalBlockId>, GlobalBlockId),
    /// One pending block.
    Pending(Option<GlobalBlockId>, GlobalBlockId),
}

impl View for BatchCursor {
    type V = Batch;

    open spec fn view(&self) -> Batch {
        match *self {
            BatchCursor::Finalized(start, cursors) => Batch {
                finality: DataFinality::DataStatusFinalized,
                start,
                cursors: cursors@,
            },
            BatchCursor::Accepted(start, cursor) => Batch {
                finality: DataFinality::DataStatusAccepted,
                start,
                cursors: seq![cursor],
            },
            BatchCursor::Pending(start, cursor) => Batch {
                finality: DataFinality::DataStatusPending,
                start,
                cursors: seq![cursor],
            },
        }
    }
}

/// The batch that an optional batch cursor stands for.
pub open spec fn batch_of(batch_cursor: Option<BatchCursor>) -> Option<Batch> {
    match batch_cursor {
        Some(batch_cursor) => Some(batch_cursor@),
        None => None,
    }
}

impl BatchCursor {
    /// A batch cursor holds at least one block.
    pub open spec fn wf(&self) -> bool {
        self@.cursors.len() > 0
    }

    pub fn new_finalized(start_cursor: Option<GlobalBlockId>, cursors: Vec<GlobalBlockId>) -> (batch: Self)
        requires
            cursors@.len() > 0,
        ensures
            batch == BatchCursor::Finalized(start_cursor, cursors),
            batch.wf(),
    {
        BatchCursor::Finalized(start_cursor, cursors)
    }

    pub fn new_accepted(start_cursor: Option<GlobalBlockId>, cursor: GlobalBlockId) -> (batch: Self)
        ensures
            batch == BatchCursor::Accepted(start_cursor, cursor),
            batch.wf(),
    {
        BatchCursor::Accepted(start_cursor, cursor)
    }

    pub fn new_pending(start_cursor: Option<GlobalBlockId>, cursor: GlobalBlockId) -> (batch: Self)
        ensures
            batch == BatchCursor::Pending(start_cursor, cursor),
            batch.wf(),
    {
        BatchCursor::Pending(start_cursor, cursor)
    }

    /// The cursor that the client had reached before this batch.
    pub fn start_cursor(&self) -> (start: Option<&GlobalBlockId>)
        ensures
            match start {
                Some(cursor) => self@.start == Some(*cursor),
                None => self@.start is None,
            },
    {
        match self {
            BatchCursor::Finalized(start, _) => start.as_ref(),
            BatchCursor::Accepted(start, _) => start.as_ref(),
            BatchCursor::Pending(start, _) => start.as_ref(),
        }
    }

    /// The cursor of the last block of this batch.
    pub fn end_cursor(&self) -> (end: &GlobalBlockId)
        requires
            self.wf(),
        ensures
            *end == self@.cursors.last(),
    {
        match self {
            BatchCursor::Finalized(_, cursors) => &cursors[cursors.len() - 1],
            BatchCursor::Accepted(_, cursor) => cursor,
            BatchCursor::Pending(_, cursor) => cursor,
        }
    }

    /// The blocks of a finalized batch.
    pub fn as_finalized(&self) -> (cursors: Option<&[GlobalBlockId]>)
        ensures
            match cursors {
                Some(cursors) => self@.finality == DataFinality::DataStatusFinalized
                    && cursors@ == self@.cursors,
                None => self@.finality != DataFinality::DataStatusFinalized,
            },
    {
        match self {
            BatchCursor::Finalized(_, cursors) => Some(cursors.as_slice()),
            _ => None,
        }
    }

    /// The block of an accepted batch.
    pub fn as_accepted(&self) -> (cursor: Option<&GlobalBlockId>)
        ensures
            match cursor {
                Some(cursor) => self@.finality == DataFinality::DataStatusAccepted
                    && self@.cursors == seq![*cursor],
                None => self@.finality != DataFinality::DataStatusAccepted,
            },
    {
        match self {
            BatchCursor::Accepted(_, cursor) => Some(cursor),
            _ => None,
        }
    }

    /// The block of a pending batch.
    pub fn as_pending(&self) -> (cursor: Option<&GlobalBlockId>)
        ensures
            match cursor {
                Some(cursor) => self@.finality == DataFinality::DataStatusPending
                    && self@.cursors == seq![*cursor],
                None => self@.finality != DataFinality::DataStatusPending,
            },
    {
        match self {
            BatchCursor::Pending(_, cursor) => Some(cursor),
            _ => None,
        }
    }
}

} // verus!
