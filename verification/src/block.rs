//! Blocks as the stream sees them: hashes, cursors, statuses and headers.

use vstd::prelude::*;

verus! {

/// The hash of a block: 32 bytes.
#[derive(Clone, Copy, Debug, PartialEq, Eq, Hash)]
pub struct BlockHash {
    pub bytes: [u8; 32],
}

/// A slice that is not 32 bytes long was offered as a block hash.
#[derive(Clone, Copy, Debug, PartialEq, Eq)]
pub struct InvalidBlockHashSize {
    /// The length of the slice that was offered.
    pub actual: usize,
}

impl BlockHash {
    /// Whether every byte of the hash is zero.
    pub open spec fn spec_is_zero(&self) -> bool {
        forall|i: int| 0 <= i < 32 ==> self.bytes@[i] == 0
    }

    /// The hash made of the 32 bytes of `bytes`; an error when `bytes` has another length.
    pub fn from_slice(bytes: &[u8]) -> (r: Result<BlockHash, InvalidBlockHashSize>)
        ensures
            bytes@.len() == 32 <==> r is Ok,
            r matches Ok(hash) ==> hash.bytes@ == bytes@,
            r matches Err(e) ==> e.actual == bytes@.len(),
    {
        if bytes.len() != 32 {
            return Err(InvalidBlockHashSize { actual: bytes.len() });
        }
        let mut out: [u8; 32] = [0u8; 32];
        let mut i: usize = 0;
        while i < 32
            invariant
                i <= 32,
                bytes@.len() == 32,
                forall|j: int| 0 <= j < i ==> out@[j] == bytes@[j],
            decreases 32 - i,
        {
            out[i] = bytes[i];
            i += 1;
        }
        assert(out@ =~= bytes@);
        Ok(BlockHash { bytes: out })
    }

    /// Whether every byte of the hash is zero. A cursor with such a hash names a block by its
    /// number alone.
    pub fn is_zero(&self) -> (zero: bool)
        ensures
            zero == self.spec_is_zero(),
    {
        let mut i: usize = 0;
        while i < 32
            invariant
                i <= 32,
                forall|j: int| 0 <= j < i ==> self.bytes@[j] == 0,
            decreases 32 - i,
        {
            if self.bytes[i] != 0 {
                return false;
            }
            i += 1;
        }
        true
    }
}

/// A cursor: the number of a block in the chain together with the block's hash.
#[derive(Clone, Copy, Debug, PartialEq, Eq, Hash)]
pub struct GlobalBlockId {
    pub number: u64,
    pub hash: BlockHash,
}

/// The status that storage records for a block.
#[derive(Clone, Copy, Debug, PartialEq, Eq, Structural)]
pub enum BlockStatus {
    Unspecified,
    Pending,
    AcceptedOnL2,
    AcceptedOnL1,
    Rejected,
}

impl BlockStatus {
    /// The block is part of the canonical chain and not finalized yet.
    pub open spec fn spec_is_accepted(&self) -> bool {
        *self == BlockStatus::AcceptedOnL2
    }

    /// The block is finalized.
    pub open spec fn spec_is_finalized(&self) -> bool {
        *self == BlockStatus::AcceptedOnL1
    }

    /// The block belongs to the canonical chain, finalized or not.
    pub open spec fn is_canonical(&self) -> bool {
        self.spec_is_accepted() || self.spec_is_finalized()
    }

    #[verifier::when_used_as_spec(spec_is_accepted)]
    pub fn is_accepted(&self) -> (r: bool)
        ensures
            r == self.spec_is_accepted(),
    {
        matches!(self, BlockStatus::AcceptedOnL2)
    }

    #[verifier::when_used_as_spec(spec_is_finalized)]
    pub fn is_finalized(&self) -> (r: bool)
        ensures
            r == self.spec_is_finalized(),
    {
        matches!(self, BlockStatus::AcceptedOnL1)
    }
}

/// What the stream reads of a block's header.
#[derive(Clone, Copy, Debug, PartialEq, Eq)]
pub struct BlockHeader {
    pub block_number: u64,
    pub block_hash: Option<BlockHash>,
    pub parent_block_hash: Option<BlockHash>,
}

/// A header from which no cursor can be made.
#[derive(Clone, Copy, Debug, PartialEq, Eq, Structural)]
pub enum InvalidBlock {
    /// The header holds no hash where one is needed.
    MissingHash,
    /// The header is that of block 0, which has no parent.
    MissingParent,
    /// The header read for a block carries a number above that block's own.
    UnexpectedNumber,
}

impl GlobalBlockId {
    /// The cursor of the parent of the block with header `header`.
    pub open spec fn spec_from_block_header_parent(header: BlockHeader) -> Result<
        GlobalBlockId,
        InvalidBlock,
    > {
        match header.parent_block_hash {
            None => Err(InvalidBlock::MissingHash),
            Some(hash) => if header.block_number == 0 {
                Err(InvalidBlock::MissingParent)
            } else {
                Ok(GlobalBlockId { number: (header.block_number - 1) as u64, hash })
            },
        }
    }

    pub fn new(number: u64, hash: BlockHash) -> (id: GlobalBlockId)
        ensures
            id == (GlobalBlockId { number, hash }),
    {
        GlobalBlockId { number, hash }
    }

    /// The cursor of the parent of the block with header `header`: one block below, with the
    /// parent hash that the header holds.
    pub fn from_block_header_parent(header: &BlockHeader) -> (r: Result<GlobalBlockId, InvalidBlock>)
        ensures
            r == Self::spec_from_block_header_parent(*header),
    {
        match header.parent_block_hash {
            None => Err(InvalidBlock::MissingHash),
            Some(hash) => {
                if header.block_number == 0 {
                    Err(InvalidBlock::MissingParent)
                } else {
                    Ok(GlobalBlockId { number: header.block_number - 1, hash })
                }
            },
        }
    }

    pub fn number(&self) -> (number: u64)
        ensures
            number == self.number,
    {
        self.number
    }

    pub fn hash(&self) -> (hash: &BlockHash)
        ensures
            *hash == self.hash,
    {
        &self.hash
    }
}

} // verus!
