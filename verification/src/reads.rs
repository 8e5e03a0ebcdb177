//! What a poll reads from storage.
//!
//! A producer reads the tips of the chain once, and at every poll the canonical cursors of the
//! blocks that it is about to hand out. The functions of this module make those reads; the
//! predicates say which answers of storage they stand for.

use vstd::prelude::*;
use crate::block::GlobalBlockId;
use crate::state::{IngestionState, Lookup, ProducerState};
use crate::storage::{StorageReader, accepted_tip, canonical_at, finalized_tip};

verus! {

/// Storage may say that its highest accepted and its highest finalized block are those of
/// `loaded`. Storage knows no pending block.
pub open spec fn reads_tips<R: StorageReader>(storage: &R, loaded: IngestionState) -> bool {
    &&& accepted_tip(storage, Ok(loaded.accepted))
    &&& finalized_tip(storage, Ok(loaded.finalized))
    &&& loaded.pending is None
}

/// The first read of the tips may fail with `error`: at the accepted block, or at the
/// finalized block once the accepted one is read.
pub open spec fn fails_tips<R: StorageReader>(storage: &R, error: R::Error) -> bool {
    ||| accepted_tip(storage, Err(error))
    ||| {
        &&& exists|accepted: Option<GlobalBlockId>| #[trigger]
            accepted_tip(storage, Ok(accepted))
        &&& finalized_tip(storage, Err(error))
    }
}

/// Storage may report the cursors `found` for the first blocks of `lookup`, one for each
/// number from the lookup's first on.
pub open spec fn reads_run<R: StorageReader>(
    storage: &R,
    lookup: Lookup,
    found: Seq<GlobalBlockId>,
) -> bool {
    &&& found.len() <= lookup.limit()
    &&& forall|k: int|
        0 <= k < found.len() ==> canonical_at(
            storage,
            (lookup.first_number() + k) as u64,
            Ok(Some(#[trigger] found[k])),
        )
}

/// Storage may answer `lookup` with `found`: it reports these cursors for the first blocks
/// of the lookup and, where the lookup asks for more, no cursor for the block after them.
pub open spec fn answers_lookup<R: StorageReader>(
    storage: &R,
    lookup: Lookup,
    found: Seq<GlobalBlockId>,
) -> bool {
    &&& reads_run(storage, lookup, found)
    &&& found.len() < lookup.limit() ==> canonical_at(
        storage,
        (lookup.first_number() + found.len()) as u64,
        Ok(None),
    )
}

/// Storage may fail `lookup` with `error` once it has reported `found` for the first blocks.
pub open spec fn fails_lookup<R: StorageReader>(
    storage: &R,
    lookup: Lookup,
    found: Seq<GlobalBlockId>,
    error: R::Error,
) -> bool {
    &&& reads_run(storage, lookup, found)
    &&& found.len() < lookup.limit()
    &&& canonical_at(storage, (lookup.first_number() + found.len()) as u64, Err(error))
}

/// Storage may answer a poll in `state` with the tips `loaded` and the cursors `found`. The
/// tips are read only where the producer has none, the cursors are those of the lookup that
/// the tips call for, and a producer without a configuration reads nothing.
pub open spec fn answers_poll<R: StorageReader>(
    storage: &R,
    state: ProducerState,
    loaded: IngestionState,
    found: Seq<GlobalBlockId>,
) -> bool {
    state.configuration matches Some(configuration) ==> {
        &&& state.ingestion_state is None ==> reads_tips(storage, loaded)
        &&& answers_lookup(storage, configuration.lookup(state.tips(loaded)), found)
    }
}

/// Reads the tips of the chain: the highest accepted block first, then the highest finalized
/// one. The first failure is handed back.
pub fn read_tips<R: StorageReader>(storage: &R) -> (r: Result<IngestionState, R::Error>)
    ensures
        match r {
            Ok(loaded) => reads_tips(storage, loaded),
            Err(error) => fails_tips(storage, error),
        },
{
    let accepted = storage.highest_accepted_block()?;
    assert(accepted_tip(storage, Ok(accepted)));
    let finalized = storage.highest_finalized_block()?;
    Ok(IngestionState { accepted, finalized, pending: None })
}

/// Asks storage for the blocks of `lookup`, in order, and stops at the first that storage
/// lacks or fails to tell. Hands back the cursors read, and the failure if there was one.
pub fn read_run<R: StorageReader>(storage: &R, lookup: Lookup) -> (r: (
    Vec<GlobalBlockId>,
    Option<R::Error>,
))
    ensures
        match r.1 {
            None => answers_lookup(storage, lookup, r.0@),
            Some(error) => fails_lookup(storage, lookup, r.0@, error),
        },
        lookup.limit() == 0 ==> r.1 is None,
{
    let mut cursors: Vec<GlobalBlockId> = Vec::new();
    let (first, last) = match lookup {
        Lookup::Nothing => {
            return (cursors, None);
        },
        Lookup::Finalized { first, last } => {
            if first > last {
                return (cursors, None);
            }
            (first, last)
        },
        Lookup::Accepted { number } => (number, number),
        Lookup::Pending { number } => (number, number),
    };
    let mut number: u64 = first;
    loop
        invariant_except_break
            cursors@.len() == number - first,
        invariant
            first <= number <= last,
            first == lookup.first_number(),
            last - first + 1 == lookup.limit(),
            reads_run(storage, lookup, cursors@),
        ensures
            answers_lookup(storage, lookup, cursors@),
        decreases last - number,
    {
        match storage.canonical_block_id(number) {
            Err(error) => {
                return (cursors, Some(error));
            },
            Ok(None) => {
                break ;
            },
            Ok(Some(cursor)) => {
                cursors.push(cursor);
            },
        }
        if number == last {
            break ;
        }
        number += 1;
    }
    (cursors, None)
}

} // verus!
