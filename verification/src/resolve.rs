//! How a starting cursor is resolved.
//!
//! A client may come back with a cursor that a reorganisation has taken off the canonical
//! chain. The producer then searches for the first canonical ancestor: it reads the status of
//! a block and, where the block is not canonical, goes on at the parent that the block's
//! header names. This module makes that search, and says which answers of storage bring it to
//! which end.

use vstd::prelude::*;
use crate::block::{BlockHeader, BlockStatus, GlobalBlockId, InvalidBlock};
use crate::storage::{StorageReader, canonical_at, header_of, settled, status_of};
use crate::stream::{InternalError, ReconfigureResponse, StreamError};

verus! {

/// What a header read for the block `root` says of that block's parent.
///
/// No header, no parent: `Ok(None)`. Otherwise the parent is one block below the header's
/// number, with the header's parent hash. A parent that would not lie below `root` is refused:
/// every step towards an ancestor goes down.
pub open spec fn spec_parent_below(root: GlobalBlockId, header: Option<BlockHeader>) -> Result<
    Option<GlobalBlockId>,
    InvalidBlock,
> {
    match header {
        None => Ok(None),
        Some(header) => match GlobalBlockId::spec_from_block_header_parent(header) {
            Err(invalid) => Err(invalid),
            Ok(parent) => if parent.number < root.number {
                Ok(Some(parent))
            } else {
                Err(InvalidBlock::UnexpectedNumber)
            },
        },
    }
}

/// What a header read for the block `root` says of that block's parent.
pub fn parent_below(root: &GlobalBlockId, header: Option<BlockHeader>) -> (r: Result<
    Option<GlobalBlockId>,
    InvalidBlock,
>)
    ensures
        r == spec_parent_below(*root, header),
{
    match header {
        None => Ok(None),
        Some(header) => match GlobalBlockId::from_block_header_parent(&header) {
            Err(invalid) => Err(invalid),
            Ok(parent) => {
                if parent.number < root.number {
                    Ok(Some(parent))
                } else {
                    Err(InvalidBlock::UnexpectedNumber)
                }
            },
        },
    }
}

/// Where the search for a canonical ancestor stands after one block.
#[derive(Debug, PartialEq, Eq)]
pub enum Walk<E> {
    /// The block is canonical: the search is over.
    Found,
    /// Storage lacks the block or its header: the search is over.
    Missing,
    /// The search failed.
    Failed(StreamError<E>),
    /// The block is not canonical: the search goes on at its parent.
    Parent(GlobalBlockId),
}

/// Where the search for a canonical ancestor stands after the block `root`, given the status
/// and the header that storage reports for it. The header counts only for a block that is
/// not canonical.
pub open spec fn walk_step<E>(
    root: GlobalBlockId,
    status: Result<Option<BlockStatus>, E>,
    header: Result<Option<BlockHeader>, E>,
) -> Walk<E> {
    match status {
        Err(error) => Walk::Failed(StreamError::Internal(InternalError::Source(error))),
        Ok(None) => Walk::Missing,
        Ok(Some(status)) => if status.is_canonical() {
            Walk::Found
        } else {
            match header {
                Err(error) => Walk::Failed(StreamError::Internal(InternalError::Source(error))),
                Ok(header) => match spec_parent_below(root, header) {
                    Err(invalid) => Walk::Failed(
                        StreamError::Internal(InternalError::InvalidBlock(invalid)),
                    ),
                    Ok(None) => Walk::Missing,
                    Ok(Some(parent)) => Walk::Parent(parent),
                },
            }
        },
    }
}

/// Storage may report, for the block `root`, a status and a header that bring the search for
/// a canonical ancestor to `step`. The header is read only for a block that is not canonical.
pub open spec fn walks<R: StorageReader>(
    storage: &R,
    root: GlobalBlockId,
    step: Walk<R::Error>,
) -> bool {
    exists|status: Result<Option<BlockStatus>, R::Error>, header: Result<Option<BlockHeader>, R::Error>|
        #![trigger walk_step(root, status, header)]
        {
            &&& status_of(storage, root, status)
            &&& (status matches Ok(Some(status)) && !status.is_canonical()) ==> header_of(
                storage,
                root,
                header,
            )
            &&& walk_step(root, status, header) == step
        }
}

/// Reads what storage knows of the block `root`, and says where the search for a canonical
/// ancestor stands after it. The status is read first; the header is read only for a block
/// that is not canonical. A parent named by the header lies below `root`.
pub fn walk<R: StorageReader>(storage: &R, root: &GlobalBlockId) -> (step: Walk<R::Error>)
    ensures
        walks(storage, *root, step),
        step matches Walk::Parent(parent) ==> parent.number < root.number,
{
    let status = storage.read_status(root);
    let ghost unread = Ok::<Option<BlockHeader>, R::Error>(None);
    let status = match status {
        Err(error) => {
            let failure = StreamError::internal(error);
            assert(walk_step(*root, status, unread) == Walk::Failed(failure));
            return Walk::Failed(failure);
        },
        Ok(None) => {
            assert(walk_step(*root, status, unread) == Walk::<R::Error>::Missing);
            return Walk::Missing;
        },
        Ok(Some(status)) => status,
    };
    if status.is_accepted() || status.is_finalized() {
        assert(walk_step(*root, Ok::<_, R::Error>(Some(status)), unread) == Walk::<
            R::Error,
        >::Found);
        return Walk::Found;
    }
    let header = storage.read_header(root);
    assert(walks(storage, *root, walk_step(*root, Ok::<_, R::Error>(Some(status)), header)));
    match header {
        Err(error) => Walk::Failed(StreamError::internal(error)),
        Ok(header) => match parent_below(root, header) {
            Err(invalid) => Walk::Failed(StreamError::invalid_block(invalid)),
            Ok(None) => Walk::Missing,
            Ok(Some(parent)) => Walk::Parent(parent),
        },
    }
}

/// The search for a canonical ancestor may go along `path`, block by block from the first
/// to the last, and end there with `end`.
pub open spec fn walks_along<R: StorageReader>(
    storage: &R,
    path: Seq<GlobalBlockId>,
    end: Walk<R::Error>,
) -> bool {
    &&& path.len() > 0
    &&& forall|k: int|
        0 <= k < path.len() - 1 ==> walks(storage, #[trigger] path[k], Walk::Parent(path[k + 1]))
    &&& walks(storage, path.last(), end)
    &&& !(end is Parent)
}

/// What a configuration comes to.
#[derive(Debug, PartialEq, Eq)]
pub enum Resolution<E> {
    /// The stream goes on after `current`, and the client gets `response`.
    Started { current: Option<GlobalBlockId>, response: ReconfigureResponse },
    /// Storage lacks the starting cursor, or a block on the way to its canonical ancestor.
    Missing,
    /// The configuration failed.
    Failed(StreamError<E>),
}

/// Storage may name `cursor` as the block that the starting cursor `start` stands for: `start`
/// itself where it carries a hash, else the canonical block with its number.
pub open spec fn names<R: StorageReader>(
    storage: &R,
    start: GlobalBlockId,
    cursor: Result<Option<GlobalBlockId>, R::Error>,
) -> bool {
    if start.hash.spec_is_zero() {
        canonical_at(storage, start.number, cursor)
    } else {
        cursor == Ok::<_, R::Error>(Some(start))
    }
}

/// The search for a canonical ancestor may go along `path` and come to `resolution`. A
/// search that ends where it began finds the starting cursor valid; one that had to walk back
/// tells the client to invalidate what follows the ancestor.
pub open spec fn walked<R: StorageReader>(
    storage: &R,
    path: Seq<GlobalBlockId>,
    resolution: Resolution<R::Error>,
) -> bool {
    match resolution {
        Resolution::Started { current, response } => {
            &&& walks_along(storage, path, Walk::Found)
            &&& current == Some(path.last())
            &&& response == if path.len() == 1 {
                ReconfigureResponse::Valid
            } else {
                ReconfigureResponse::Invalidate(path.last())
            }
        },
        Resolution::Missing => walks_along(storage, path, Walk::Missing),
        Resolution::Failed(error) => walks_along(storage, path, Walk::Failed(error)),
    }
}

/// The block that storage has named for the starting cursor resolves to `resolution`: a
/// failure to name it fails the configuration, a starting cursor that storage cannot name is
/// missing, and from the block named the search for a canonical ancestor decides.
pub open spec fn resolves_from<R: StorageReader>(
    storage: &R,
    named: Result<Option<GlobalBlockId>, R::Error>,
    resolution: Resolution<R::Error>,
) -> bool {
    match named {
        Err(error) => resolution == Resolution::Failed(
            StreamError::Internal(InternalError::Source(error)),
        ),
        Ok(None) => resolution == Resolution::<R::Error>::Missing,
        Ok(Some(cursor)) => exists|path: Seq<GlobalBlockId>|
            #![trigger walked(storage, path, resolution)]
            path.len() > 0 && path[0] == cursor && walked(storage, path, resolution),
    }
}

/// Storage may resolve the starting cursor `start` to `resolution`. Without a starting cursor
/// the stream starts at the first block, and storage is not asked.
pub open spec fn resolves<R: StorageReader>(
    storage: &R,
    start: Option<GlobalBlockId>,
    resolution: Resolution<R::Error>,
) -> bool {
    match start {
        None => resolution == (Resolution::<R::Error>::Started {
            current: None,
            response: ReconfigureResponse::Valid,
        }),
        Some(start) => exists|named: Result<Option<GlobalBlockId>, R::Error>|
            #![trigger names(storage, start, named)]
            names(storage, start, named) && resolves_from(storage, named, resolution),
    }
}

/// A search that starts at the block that storage names for `start` resolves `start`.
proof fn lemma_walk_resolves<R: StorageReader>(
    storage: &R,
    start: GlobalBlockId,
    path: Seq<GlobalBlockId>,
    resolution: Resolution<R::Error>,
)
    requires
        path.len() > 0,
        names(storage, start, Ok::<_, R::Error>(Some(path[0]))),
        walked(storage, path, resolution),
    ensures
        resolves(storage, Some(start), resolution),
{
    assert(resolves_from(storage, Ok(Some(path[0])), resolution));
    assert(Some(start).unwrap() == start);
}

/// Resolves the starting cursor of a configuration.
///
/// Without a starting cursor the stream starts at the first block. A starting cursor with a
/// zero hash names a block by its number: storage is asked for the canonical cursor. Where
/// the block named is canonical, the stream goes on after it. Where it is not, the search
/// walks back parent by parent to the first ancestor that is, the stream goes on after that
/// one, and the client is told to invalidate what follows it. A block or a header that
/// storage lacks on the way makes the starting cursor missing.
pub fn resolve<R: StorageReader>(storage: &R, start: Option<GlobalBlockId>) -> (resolution:
    Resolution<R::Error>)
    ensures
        resolves(storage, start, resolution),
{
    let starting_cursor = match start {
        None => {
            return Resolution::Started { current: None, response: ReconfigureResponse::Valid };
        },
        Some(starting_cursor) => starting_cursor,
    };
    let named = if starting_cursor.hash.is_zero() {
        storage.canonical_block_id(starting_cursor.number)
    } else {
        Ok(Some(starting_cursor))
    };
    assert(names(storage, starting_cursor, named));
    let first = match named {
        Err(error) => {
            return Resolution::Failed(StreamError::internal(error));
        },
        Ok(None) => {
            return Resolution::Missing;
        },
        Ok(Some(first)) => first,
    };
    let mut root = first;
    let mut walked_back = false;
    let ghost mut path = seq![first];
    loop
        invariant
            start == Some(starting_cursor),
            names(storage, starting_cursor, Ok::<_, R::Error>(Some(first))),
            path.len() > 0,
            path[0] == first,
            path.last() == root,
            walked_back == (path.len() > 1),
            forall|k: int|
                0 <= k < path.len() - 1 ==> walks(
                    storage,
                    #[trigger] path[k],
                    Walk::Parent(path[k + 1]),
                ),
        ensures
            walks(storage, root, Walk::Found),
        decreases root.number,
    {
        match walk(storage, &root) {
            Walk::Found => {
                break ;
            },
            Walk::Missing => {
                proof {
                    lemma_walk_resolves(storage, starting_cursor, path, Resolution::Missing);
                }
                return Resolution::Missing;
            },
            Walk::Failed(failure) => {
                proof {
                    lemma_walk_resolves(storage, starting_cursor, path, Resolution::Failed(failure));
                }
                return Resolution::Failed(failure);
            },
            Walk::Parent(parent) => {
                proof {
                    path = path.push(parent);
                }
                root = parent;
                walked_back = true;
            },
        }
    }
    let response = if walked_back {
        ReconfigureResponse::Invalidate(root)
    } else {
        ReconfigureResponse::Valid
    };
    let resolution = Resolution::Started { current: Some(root), response };
    proof {
        lemma_walk_resolves(storage, starting_cursor, path, resolution);
    }
    resolution
}

/// What the answer `r` to a configuration says of how the configuration was resolved, for a
/// producer that stands at `current` afterwards.
pub open spec fn resolution_of<E>(
    r: Result<ReconfigureResponse, StreamError<E>>,
    current: Option<GlobalBlockId>,
) -> Resolution<E> {
    match r {
        Err(error) => Resolution::Failed(error),
        Ok(ReconfigureResponse::MissingStartingCursor) => Resolution::Missing,
        Ok(response) => Resolution::Started { current, response },
    }
}

/// The search for a canonical ancestor goes down the chain: each block of its path lies
/// below the one before, so the last lies as many blocks below the first as the path has
/// steps, or more.
pub proof fn lemma_ancestor_below<R: StorageReader>(
    storage: &R,
    path: Seq<GlobalBlockId>,
    end: Walk<R::Error>,
)
    requires
        walks_along(storage, path, end),
    ensures
        path.last().number + path.len() - 1 <= path.first().number,
{
    lemma_steps_go_down(storage, path, path.len() - 1);
}

/// An invalidation names the block after which the stream goes on, and that block lies below
/// the starting cursor: a configuration that is answered with `Invalidate` has walked back.
pub proof fn lemma_invalidation_goes_back<R: StorageReader>(
    storage: &R,
    start: Option<GlobalBlockId>,
    current: Option<GlobalBlockId>,
    ancestor: GlobalBlockId,
)
    requires
        resolves(
            storage,
            start,
            Resolution::Started { current, response: ReconfigureResponse::Invalidate(ancestor) },
        ),
    ensures
        current == Some(ancestor),
        start is Some,
        !start.unwrap().hash.spec_is_zero() ==> ancestor.number < start.unwrap().number,
{
    let resolution = Resolution::<R::Error>::Started {
        current,
        response: ReconfigureResponse::Invalidate(ancestor),
    };
    let starting_cursor = start.unwrap();
    let named = choose|named: Result<Option<GlobalBlockId>, R::Error>|
        #![trigger names(storage, starting_cursor, named)]
        names(storage, starting_cursor, named) && resolves_from(storage, named, resolution);
    let cursor = named->Ok_0->Some_0;
    let path = choose|path: Seq<GlobalBlockId>|
        #![trigger walked(storage, path, resolution)]
        path.len() > 0 && path[0] == cursor && walked(storage, path, resolution);
    lemma_ancestor_below(storage, path, Walk::Found);
}

/// Along the steps of a search, the block `k` lies at least `k` blocks below the first.
proof fn lemma_steps_go_down<R: StorageReader>(storage: &R, path: Seq<GlobalBlockId>, k: int)
    requires
        0 <= k < path.len(),
        forall|j: int|
            0 <= j < path.len() - 1 ==> walks(storage, #[trigger] path[j], Walk::Parent(path[j + 1])),
    ensures
        path[k].number + k <= path[0].number,
    decreases k,
{
    if k > 0 {
        lemma_steps_go_down(storage, path, k - 1);
        assert(walks(storage, path[k - 1], Walk::Parent(path[k])));
    }
}

/// Where storage's answers are settled, one block brings the search to one place only.
proof fn lemma_one_step<R: StorageReader>(
    storage: &R,
    root: GlobalBlockId,
    one: Walk<R::Error>,
    other: Walk<R::Error>,
)
    requires
        settled(storage),
        walks(storage, root, one),
        walks(storage, root, other),
    ensures
        one == other,
{
    let (status, header) = choose|
        status: Result<Option<BlockStatus>, R::Error>,
        header: Result<Option<BlockHeader>, R::Error>,
    |
        #![trigger walk_step(root, status, header)]
        {
            &&& status_of(storage, root, status)
            &&& (status matches Ok(Some(status)) && !status.is_canonical()) ==> header_of(
                storage,
                root,
                header,
            )
            &&& walk_step(root, status, header) == one
        };
    let (status2, header2) = choose|
        status: Result<Option<BlockStatus>, R::Error>,
        header: Result<Option<BlockHeader>, R::Error>,
    |
        #![trigger walk_step(root, status, header)]
        {
            &&& status_of(storage, root, status)
            &&& (status matches Ok(Some(status)) && !status.is_canonical()) ==> header_of(
                storage,
                root,
                header,
            )
            &&& walk_step(root, status, header) == other
        };
    assert(status == status2);
}

/// Where storage's answers are settled, two searches from one block go the same way as far
/// as both go.
proof fn lemma_one_way<R: StorageReader>(
    storage: &R,
    one: Seq<GlobalBlockId>,
    other: Seq<GlobalBlockId>,
    k: int,
)
    requires
        settled(storage),
        one.len() > 0,
        other.len() > 0,
        one[0] == other[0],
        forall|j: int|
            0 <= j < one.len() - 1 ==> walks(storage, #[trigger] one[j], Walk::Parent(one[j + 1])),
        forall|j: int|
            0 <= j < other.len() - 1 ==> walks(
                storage,
                #[trigger] other[j],
                Walk::Parent(other[j + 1]),
            ),
        0 <= k < one.len(),
        k < other.len(),
    ensures
        one[k] == other[k],
    decreases k,
{
    if k > 0 {
        lemma_one_way(storage, one, other, k - 1);
        assert(walks(storage, one[k - 1], Walk::Parent(one[k])));
        assert(walks(storage, other[k - 1], Walk::Parent(other[k])));
        lemma_one_step(storage, one[k - 1], Walk::Parent(one[k]), Walk::Parent(other[k]));
    }
}

/// Where storage's answers are settled, two searches from one block end at the same block in
/// the same way.
proof fn lemma_one_end<R: StorageReader>(
    storage: &R,
    one: Seq<GlobalBlockId>,
    one_end: Walk<R::Error>,
    other: Seq<GlobalBlockId>,
    other_end: Walk<R::Error>,
)
    requires
        settled(storage),
        walks_along(storage, one, one_end),
        walks_along(storage, other, other_end),
        one[0] == other[0],
    ensures
        one.len() == other.len(),
        one.last() == other.last(),
        one_end == other_end,
{
    if one.len() < other.len() {
        let last = one.len() - 1;
        lemma_one_way(storage, one, other, last);
        assert(walks(storage, other[last], Walk::Parent(other[last + 1])));
        lemma_one_step(storage, one[last], one_end, Walk::Parent(other[last + 1]));
    } else if other.len() < one.len() {
        let last = other.len() - 1;
        lemma_one_way(storage, one, other, last);
        assert(walks(storage, one[last], Walk::Parent(one[last + 1])));
        lemma_one_step(storage, other[last], other_end, Walk::Parent(one[last + 1]));
    } else {
        let last = one.len() - 1;
        lemma_one_way(storage, one, other, last);
        lemma_one_step(storage, one[last], one_end, other_end);
    }
}

/// The end of a search that comes to `resolution`.
spec fn end_of<E>(resolution: Resolution<E>) -> Walk<E> {
    match resolution {
        Resolution::Started { .. } => Walk::Found,
        Resolution::Missing => Walk::Missing,
        Resolution::Failed(error) => Walk::Failed(error),
    }
}

/// Where storage's answers are settled, a starting cursor resolves in one way only: two
/// resolutions that storage may give to one starting cursor are the same.
pub proof fn lemma_resolution_is_decided<R: StorageReader>(
    storage: &R,
    start: Option<GlobalBlockId>,
    one: Resolution<R::Error>,
    other: Resolution<R::Error>,
)
    requires
        settled(storage),
        resolves(storage, start, one),
        resolves(storage, start, other),
    ensures
        one == other,
{
    if start is Some {
        let starting_cursor = start.unwrap();
        let named = choose|named: Result<Option<GlobalBlockId>, R::Error>|
            #![trigger names(storage, starting_cursor, named)]
            names(storage, starting_cursor, named) && resolves_from(storage, named, one);
        let named2 = choose|named: Result<Option<GlobalBlockId>, R::Error>|
            #![trigger names(storage, starting_cursor, named)]
            names(storage, starting_cursor, named) && resolves_from(storage, named, other);
        assert(named == named2);
        if named is Ok && named->Ok_0 is Some {
            let cursor = named->Ok_0->Some_0;
            let path = choose|path: Seq<GlobalBlockId>|
                #![trigger walked(storage, path, one)]
                path.len() > 0 && path[0] == cursor && walked(storage, path, one);
            let path2 = choose|path: Seq<GlobalBlockId>|
                #![trigger walked(storage, path, other)]
                path.len() > 0 && path[0] == cursor && walked(storage, path, other);
            lemma_one_end(storage, path, end_of(one), path2, end_of(other));
        }
    }
}

/// Where storage's answers are settled, the chain as storage has it decides the answer to a
/// configuration.
///
/// Let `path` lead from the block that storage names for `start`, parent by parent over
/// blocks that are not canonical, to a block that is. Then the starting cursor resolves to
/// that block and to nothing else: the stream goes on after it, and the answer is `Valid`
/// where it is the block named, and `Invalidate` with that block where the search had to
/// walk back.
pub proof fn lemma_chain_decides<R: StorageReader>(
    storage: &R,
    start: GlobalBlockId,
    path: Seq<GlobalBlockId>,
    resolution: Resolution<R::Error>,
)
    requires
        settled(storage),
        path.len() > 0,
        names(storage, start, Ok::<_, R::Error>(Some(path[0]))),
        walks_along(storage, path, Walk::Found),
        resolves(storage, Some(start), resolution),
    ensures
        resolution == (Resolution::<R::Error>::Started {
            current: Some(path.last()),
            response: if path.len() == 1 {
                ReconfigureResponse::Valid
            } else {
                ReconfigureResponse::Invalidate(path.last())
            },
        }),
{
    let decided = Resolution::<R::Error>::Started {
        current: Some(path.last()),
        response: if path.len() == 1 {
            ReconfigureResponse::Valid
        } else {
            ReconfigureResponse::Invalidate(path.last())
        },
    };
    lemma_walk_resolves(storage, start, path, decided);
    lemma_resolution_is_decided(storage, Some(start), resolution, decided);
}

} // verus!
