//! The state of a cursor producer, and the steps that it takes.
//!
//! A producer keeps the client's position (`current`) and its own view of the chain's tips.
//! What a poll, an ingestion message and a configuration make of that state is written down
//! here once, as functions on [`ProducerState`] that take the answers of storage as
//! arguments. The functions that decide what to look up and that turn what was found into a
//! batch are executable, and proved to compute just that.

use vstd::math::min;
use vstd::prelude::*;
use crate::block::GlobalBlockId;
use crate::cursor_producer::{lowest_cursor, spec_lowest_cursor};
use crate::stream::{
    Batch, BatchCursor, DataFinality, IngestionMessage, IngestionResponse, batch_of,
};

verus! {

/// What a client has asked for, and how far it has come.
#[derive(Clone, Copy, Debug, PartialEq, Eq)]
pub struct BatchConfiguration {
    /// The cursor that the client has advanced to; `None` before the first block.
    pub current: Option<GlobalBlockId>,
    /// Whether the pending block at the tip went out already.
    pub pending_sent: bool,
    pub data_finality: DataFinality,
    pub batch_size: usize,
}

/// The tips of the chain, as far as the producer has heard of them.
#[derive(Clone, Copy, Debug, PartialEq, Eq)]
pub struct IngestionState {
    pub finalized: Option<GlobalBlockId>,
    pub accepted: Option<GlobalBlockId>,
    pub pending: Option<GlobalBlockId>,
}

/// The blocks that a poll asks storage for.
#[derive(Clone, Copy, Debug, PartialEq, Eq)]
pub enum Lookup {
    /// No block: nothing can go out.
    Nothing,
    /// The canonical blocks numbered `first` to `last`, up to the first that storage lacks.
    /// They are finalized.
    Finalized { first: u64, last: u64 },
    /// The canonical block with the given number. It is accepted.
    Accepted { number: u64 },
    /// The canonical block with the given number. It is pending.
    Pending { number: u64 },
}

/// The state of a cursor producer.
pub struct ProducerState {
    /// Present once the subscription has been configured.
    pub configuration: Option<BatchConfiguration>,
    /// Present once the tips have been read from storage.
    pub ingestion_state: Option<IngestionState>,
}

/// The number of the block that follows `current`.
pub open spec fn next_block_number(current: Option<GlobalBlockId>) -> int {
    match current {
        Some(cursor) => cursor.number + 1,
        None => 0,
    }
}

/// `cursor` brought down to `bound`.
pub open spec fn clamped(cursor: Option<GlobalBlockId>, bound: GlobalBlockId) -> Option<
    GlobalBlockId,
> {
    match cursor {
        Some(cursor) => Some(spec_lowest_cursor(cursor, bound)),
        None => None,
    }
}

impl Lookup {
    /// How many blocks the lookup asks for at most.
    pub open spec fn limit(self) -> int {
        match self {
            Lookup::Nothing => 0,
            Lookup::Finalized { first, last } => if first <= last {
                last - first + 1
            } else {
                0
            },
            Lookup::Accepted { .. } => 1,
            Lookup::Pending { .. } => 1,
        }
    }

    /// The number of the first block that the lookup asks for.
    pub open spec fn first_number(self) -> int {
        match self {
            Lookup::Nothing => 0,
            Lookup::Finalized { first, .. } => first as int,
            Lookup::Accepted { number } => number as int,
            Lookup::Pending { number } => number as int,
        }
    }

    /// How settled the blocks of the lookup are.
    pub open spec fn finality(self) -> DataFinality {
        match self {
            Lookup::Nothing => DataFinality::DataStatusUnknown,
            Lookup::Finalized { .. } => DataFinality::DataStatusFinalized,
            Lookup::Accepted { .. } => DataFinality::DataStatusAccepted,
            Lookup::Pending { .. } => DataFinality::DataStatusPending,
        }
    }

    /// The part of `found` that goes into the batch, where `found` holds the cursors that
    /// storage has for the blocks of the lookup, in order and up to the first gap.
    pub open spec fn batch_cursors(self, found: Seq<GlobalBlockId>) -> Seq<GlobalBlockId> {
        if found.len() <= self.limit() {
            found
        } else {
            found.take(self.limit())
        }
    }
}

impl BatchConfiguration {
    /// The configuration of a stream that starts after `current`.
    pub open spec fn starting_at(
        finality: DataFinality,
        batch_size: usize,
        current: Option<GlobalBlockId>,
    ) -> BatchConfiguration {
        BatchConfiguration { current, pending_sent: false, data_finality: finality, batch_size }
    }

    /// The blocks to ask storage for, given the tips `state`.
    ///
    /// With `n` the number of the next block: finalized blocks go first, from `n` to the
    /// finalized tip and no more than fit in one batch; then one accepted block, for a client
    /// that takes accepted data; then the pending block, once, for a client that takes pending
    /// data. The first tip that is not below `n` decides, also where it leaves nothing to ask.
    pub open spec fn lookup(self, state: IngestionState) -> Lookup {
        let n = next_block_number(self.current);
        if state.finalized is Some && n <= state.finalized.unwrap().number {
            let end = min(state.finalized.unwrap().number as int, n + self.batch_size - 1);
            if n <= end {
                Lookup::Finalized { first: n as u64, last: end as u64 }
            } else {
                Lookup::Nothing
            }
        } else if state.accepted is Some && n <= state.accepted.unwrap().number {
            if self.data_finality == DataFinality::DataStatusAccepted || self.data_finality
                == DataFinality::DataStatusPending {
                Lookup::Accepted { number: n as u64 }
            } else {
                Lookup::Nothing
            }
        } else if state.pending is Some && n <= state.pending.unwrap().number {
            if self.data_finality == DataFinality::DataStatusPending && !self.pending_sent {
                Lookup::Pending { number: n as u64 }
            } else {
                Lookup::Nothing
            }
        } else {
            Lookup::Nothing
        }
    }

    /// The configuration after `lookup` has found `found`, and the batch that goes out.
    ///
    /// Nothing found, nothing changes. A finalized or an accepted batch moves `current` to its
    /// last block. A pending batch leaves `current` alone and marks the pending block as sent.
    pub open spec fn produced(self, lookup: Lookup, found: Seq<GlobalBlockId>) -> (
        BatchConfiguration,
        Option<Batch>,
    ) {
        let cursors = lookup.batch_cursors(found);
        if cursors.len() == 0 {
            (self, None)
        } else {
            let batch = Batch { finality: lookup.finality(), start: self.current, cursors };
            match lookup {
                Lookup::Pending { .. } => (
                    BatchConfiguration { pending_sent: true, ..self },
                    Some(batch),
                ),
                _ => (BatchConfiguration { current: Some(cursors.last()), ..self }, Some(batch)),
            }
        }
    }
}

impl ProducerState {
    /// The producer's view of the tips, read from storage as `loaded` where it has none yet.
    pub open spec fn tips(self, loaded: IngestionState) -> IngestionState {
        match self.ingestion_state {
            Some(state) => state,
            None => loaded,
        }
    }

    /// One poll: the state after it and the batch that goes out.
    ///
    /// `loaded` is what storage says of the tips, `found` the canonical cursors that storage
    /// has from the next block on, up to the first gap. A producer without a configuration
    /// does not look at either.
    pub open spec fn poll(self, loaded: IngestionState, found: Seq<GlobalBlockId>) -> (
        ProducerState,
        Option<Batch>,
    ) {
        match self.configuration {
            None => (self, None),
            Some(configuration) => {
                let tips = self.tips(loaded);
                let (configuration, batch) = configuration.produced(
                    configuration.lookup(tips),
                    found,
                );
                (
                    ProducerState {
                        configuration: Some(configuration),
                        ingestion_state: Some(tips),
                    },
                    batch,
                )
            },
        }
    }

    /// One ingestion message: the state after it and the answer.
    ///
    /// `loaded` is what storage says of the tips. An invalidation brings the tips and the
    /// client's position down to its cursor; it is answered with `Invalidate` only when the
    /// client was past that cursor.
    pub open spec fn ingest(self, loaded: IngestionState, message: IngestionMessage) -> (
        ProducerState,
        IngestionResponse,
    ) {
        let tips = self.tips(loaded);
        match message {
            IngestionMessage::Pending(cursor) => (
                ProducerState {
                    configuration: match self.configuration {
                        Some(configuration) => Some(
                            BatchConfiguration { pending_sent: false, ..configuration },
                        ),
                        None => None,
                    },
                    ingestion_state: Some(IngestionState { pending: Some(cursor), ..tips }),
                },
                IngestionResponse::Valid,
            ),
            IngestionMessage::Accepted(cursor) => (
                ProducerState {
                    configuration: self.configuration,
                    ingestion_state: Some(
                        IngestionState { finalized: None, accepted: Some(cursor), ..tips },
                    ),
                },
                IngestionResponse::Valid,
            ),
            IngestionMessage::Finalized(cursor) => (
                ProducerState {
                    configuration: self.configuration,
                    ingestion_state: Some(IngestionState { finalized: Some(cursor), ..tips }),
                },
                IngestionResponse::Valid,
            ),
            IngestionMessage::Invalidate(cursor) => (
                ProducerState {
                    configuration: match self.configuration {
                        Some(configuration) => Some(
                            BatchConfiguration {
                                current: clamped(configuration.current, cursor),
                                ..configuration
                            },
                        ),
                        None => None,
                    },
                    ingestion_state: Some(
                        IngestionState {
                            finalized: clamped(tips.finalized, cursor),
                            accepted: clamped(tips.accepted, cursor),
                            pending: None,
                        },
                    ),
                },
                if self.invalidated_by(cursor) {
                    IngestionResponse::Invalidate(cursor)
                } else {
                    IngestionResponse::Valid
                },
            ),
        }
    }

    /// Whether the client has advanced past `cursor`.
    pub open spec fn invalidated_by(self, cursor: GlobalBlockId) -> bool {
        &&& self.configuration matches Some(configuration)
        &&& configuration.current matches Some(current)
        &&& current.number > cursor.number
    }

    /// One configuration that storage could resolve: the stream starts anew after `current`.
    pub open spec fn reconfigure(
        self,
        finality: DataFinality,
        batch_size: usize,
        current: Option<GlobalBlockId>,
    ) -> ProducerState {
        ProducerState {
            configuration: Some(BatchConfiguration::starting_at(finality, batch_size, current)),
            ..self
        }
    }

    /// The cursor that the client has advanced to.
    pub open spec fn current(self) -> Option<GlobalBlockId> {
        match self.configuration {
            Some(configuration) => configuration.current,
            None => None,
        }
    }

    /// Whether a poll can be answered without asking storage: there is no configuration, or
    /// the tips are known and leave nothing to look up.
    pub open spec fn at_rest(self) -> bool {
        match self.configuration {
            None => true,
            Some(configuration) => self.ingestion_state matches Some(tips) && configuration.lookup(
                tips,
            ) is Nothing,
        }
    }
}

/// `cursor` brought down to `bound`.
fn clamp(cursor: Option<GlobalBlockId>, bound: GlobalBlockId) -> (lowest: Option<GlobalBlockId>)
    ensures
        lowest == clamped(cursor, bound),
{
    match cursor {
        Some(cursor) => Some(lowest_cursor(cursor, bound)),
        None => None,
    }
}

impl BatchConfiguration {
    /// The blocks to ask storage for, given the tips `state`.
    pub fn next_lookup(&self, state: &IngestionState) -> (lookup: Lookup)
        ensures
            lookup == self.lookup(*state),
    {
        let next: u64 = match self.current {
            Some(cursor) => {
                if cursor.number == u64::MAX {
                    return Lookup::Nothing;
                }
                cursor.number + 1
            },
            None => 0,
        };
        if let Some(finalized) = state.finalized {
            if next <= finalized.number {
                if self.batch_size == 0 {
                    return Lookup::Nothing;
                }
                let room: u64 = finalized.number - next;
                let more: usize = self.batch_size - 1;
                if more as u64 <= room {
                    return Lookup::Finalized { first: next, last: next + more as u64 };
                }
                return Lookup::Finalized { first: next, last: finalized.number };
            }
        }
        if let Some(accepted) = state.accepted {
            if next <= accepted.number {
                return match self.data_finality {
                    DataFinality::DataStatusAccepted | DataFinality::DataStatusPending => {
                        Lookup::Accepted { number: next }
                    },
                    _ => Lookup::Nothing,
                };
            }
        }
        if let Some(pending) = state.pending {
            if next <= pending.number {
                return match self.data_finality {
                    DataFinality::DataStatusPending => {
                        if self.pending_sent {
                            Lookup::Nothing
                        } else {
                            Lookup::Pending { number: next }
                        }
                    },
                    _ => Lookup::Nothing,
                };
            }
        }
        Lookup::Nothing
    }

    /// Makes the batch out of what `lookup` has found, and advances. `found` holds the
    /// cursors that storage has for the blocks of the lookup, in order and up to the first
    /// gap; what goes beyond the lookup is left out.
    pub fn produce(&mut self, lookup: Lookup, found: Vec<GlobalBlockId>) -> (batch: Option<
        BatchCursor,
    >)
        ensures
            (*final(self), batch_of(batch)) == old(self).produced(lookup, found@),
            batch matches Some(batch) ==> batch.wf(),
    {
        let mut cursors = found;
        match lookup {
            Lookup::Nothing => {
                assert(lookup.batch_cursors(found@).len() == 0);
                None
            },
            Lookup::Finalized { first, last } => {
                if first > last {
                    assert(lookup.batch_cursors(found@).len() == 0);
                    return None;
                }
                let span: u64 = last - first;
                if cursors.len() as u64 > span {
                    cursors.truncate((span + 1) as usize);
                }
                assert(cursors@ =~= lookup.batch_cursors(found@));
                if cursors.len() == 0 {
                    return None;
                }
                let start = self.current;
                self.current = Some(cursors[cursors.len() - 1]);
                Some(BatchCursor::new_finalized(start, cursors))
            },
            Lookup::Accepted { .. } => {
                if cursors.len() == 0 {
                    return None;
                }
                let cursor = cursors[0];
                let start = self.current;
                self.current = Some(cursor);
                assert(seq![cursor] =~= lookup.batch_cursors(found@));
                Some(BatchCursor::new_accepted(start, cursor))
            },
            Lookup::Pending { .. } => {
                if cursors.len() == 0 {
                    return None;
                }
                let cursor = cursors[0];
                self.pending_sent = true;
                assert(seq![cursor] =~= lookup.batch_cursors(found@));
                Some(BatchCursor::new_pending(self.current, cursor))
            },
        }
    }
}

impl IngestionState {
    /// Takes in one ingestion message: `self` and `configuration` become what
    /// [`ProducerState::ingest`] says, and the answer is returned.
    pub fn ingest(
        &mut self,
        configuration: &mut Option<BatchConfiguration>,
        message: &IngestionMessage,
    ) -> (response: IngestionResponse)
        ensures
            ({
                let before = ProducerState {
                    configuration: *old(configuration),
                    ingestion_state: Some(*old(self)),
                };
                let after = ProducerState {
                    configuration: *final(configuration),
                    ingestion_state: Some(*final(self)),
                };
                (after, response) == before.ingest(*old(self), *message)
            }),
    {
        match *message {
            IngestionMessage::Pending(cursor) => {
                self.pending = Some(cursor);
                if let Some(current) = *configuration {
                    *configuration = Some(BatchConfiguration { pending_sent: false, ..current });
                }
                IngestionResponse::Valid
            },
            IngestionMessage::Accepted(cursor) => {
                self.finalized = None;
                self.accepted = Some(cursor);
                IngestionResponse::Valid
            },
            IngestionMessage::Finalized(cursor) => {
                self.finalized = Some(cursor);
                IngestionResponse::Valid
            },
            IngestionMessage::Invalidate(cursor) => {
                self.pending = None;
                self.accepted = clamp(self.accepted, cursor);
                self.finalized = clamp(self.finalized, cursor);
                match *configuration {
                    Some(previous) => {
                        let is_invalidated = match previous.current {
                            Some(current) => current.number > cursor.number,
                            None => false,
                        };
                        *configuration = Some(
                            BatchConfiguration {
                                current: clamp(previous.current, cursor),
                                ..previous
                            },
                        );
                        if is_invalidated {
                            IngestionResponse::Invalidate(cursor)
                        } else {
                            IngestionResponse::Valid
                        }
                    },
                    None => IngestionResponse::Valid,
                }
            },
        }
    }
}

} // verus!
