//! What the stream asks of the node's storage.

use vstd::prelude::*;
use crate::block::{BlockHeader, BlockStatus, GlobalBlockId};

verus! {

/// Read access to the chain as the node has stored it.
///
/// Storage changes while a stream runs, and every call may fail. The stream therefore takes
/// each answer as it comes: no method promises anything about what it returns. Contracts
/// speak of the answers that a storage may give through the predicates below; what is known
/// of them is what an implementation promises of its own methods.
pub trait StorageReader {
    /// The failure of a read.
    type Error;

    /// The highest block that is accepted and part of the canonical chain, if there is one.
    fn highest_accepted_block(&self) -> Result<Option<GlobalBlockId>, Self::Error>;

    /// The highest block that is finalized, if there is one.
    fn highest_finalized_block(&self) -> Result<Option<GlobalBlockId>, Self::Error>;

    /// The cursor of the canonical block with the given number, if storage knows it.
    fn canonical_block_id(&self, number: u64) -> Result<Option<GlobalBlockId>, Self::Error>;

    /// The status of the given block, if storage knows the block.
    fn read_status(&self, id: &GlobalBlockId) -> Result<Option<BlockStatus>, Self::Error>;

    /// The header of the given block, if storage knows the block.
    fn read_header(&self, id: &GlobalBlockId) -> Result<Option<BlockHeader>, Self::Error>;
}

/// Storage may answer `answer` when it is asked for its highest accepted block.
pub open spec fn accepted_tip<R: StorageReader>(
    storage: &R,
    answer: Result<Option<GlobalBlockId>, R::Error>,
) -> bool {
    R::highest_accepted_block.ensures((storage,), answer)
}

/// Storage may answer `answer` when it is asked for its highest finalized block.
pub open spec fn finalized_tip<R: StorageReader>(
    storage: &R,
    answer: Result<Option<GlobalBlockId>, R::Error>,
) -> bool {
    R::highest_finalized_block.ensures((storage,), answer)
}

/// Storage may answer `answer` when it is asked for the canonical block with the number
/// `number`.
pub open spec fn canonical_at<R: StorageReader>(
    storage: &R,
    number: u64,
    answer: Result<Option<GlobalBlockId>, R::Error>,
) -> bool {
    R::canonical_block_id.ensures((storage, number), answer)
}

/// Storage may answer `answer` when it is asked for the status of the block `id`.
pub open spec fn status_of<R: StorageReader>(
    storage: &R,
    id: GlobalBlockId,
    answer: Result<Option<BlockStatus>, R::Error>,
) -> bool {
    R::read_status.ensures((storage, &id), answer)
}

/// Storage may answer `answer` when it is asked for the header of the block `id`.
pub open spec fn header_of<R: StorageReader>(
    storage: &R,
    id: GlobalBlockId,
    answer: Result<Option<BlockHeader>, R::Error>,
) -> bool {
    R::read_header.ensures((storage, &id), answer)
}

/// Storage answers with the block that was asked for: every cursor that it may report for a
/// number carries that number.
pub open spec fn numbered<R: StorageReader>(storage: &R) -> bool {
    forall|number: u64, cursor: GlobalBlockId| #[trigger]
        canonical_at(storage, number, Ok(Some(cursor))) ==> cursor.number == number
}

/// Storage has one answer to each question about a block: what it may say of the canonical
/// block with a number, of the status of a block and of the header of a block is settled.
pub open spec fn settled<R: StorageReader>(storage: &R) -> bool {
    &&& forall|
        number: u64,
        one: Result<Option<GlobalBlockId>, R::Error>,
        other: Result<Option<GlobalBlockId>, R::Error>,
    |
        #[trigger] canonical_at(storage, number, one) && #[trigger] canonical_at(
            storage,
            number,
            other,
        ) ==> one == other
    &&& forall|
        id: GlobalBlockId,
        one: Result<Option<BlockStatus>, R::Error>,
        other: Result<Option<BlockStatus>, R::Error>,
    |
        #[trigger] status_of(storage, id, one) && #[trigger] status_of(storage, id, other) ==> one
            == other
    &&& forall|
        id: GlobalBlockId,
        one: Result<Option<BlockHeader>, R::Error>,
        other: Result<Option<BlockHeader>, R::Error>,
    |
        #[trigger] header_of(storage, id, one) && #[trigger] header_of(storage, id, other) ==> one
            == other
}

} // verus!
