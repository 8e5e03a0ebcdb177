use std::sync::Arc;

use cursor_stream::block::{BlockHash, BlockHeader, BlockStatus, GlobalBlockId};
use cursor_stream::cursor_producer::SequentialCursorProducer;
use cursor_stream::storage::StorageReader;
use cursor_stream::stream::{
    DataFinality, IngestionMessage, ReconfigureResponse, StreamConfiguration,
};

type Answer<T> = Box<dyn Fn(&GlobalBlockId) -> Option<T> + Send + Sync>;

/// A storage that answers as each test tells it to, and panics on a call that the test did
/// not expect.
#[derive(Default)]
struct MockStorageReader {
    canonical_block_id: Option<Box<dyn Fn(u64) -> Option<GlobalBlockId> + Send + Sync>>,
    highest_accepted_block: Option<Option<GlobalBlockId>>,
    highest_finalized_block: Option<Option<GlobalBlockId>>,
    read_status: Vec<(Option<GlobalBlockId>, Answer<BlockStatus>)>,
    read_header: Vec<(Option<GlobalBlockId>, Answer<BlockHeader>)>,
}

impl MockStorageReader {
    fn new() -> Self {
        MockStorageReader::default()
    }

    fn expect_canonical_block_id(
        &mut self,
        answer: impl Fn(u64) -> Option<GlobalBlockId> + Send + Sync + 'static,
    ) {
        self.canonical_block_id = Some(Box::new(answer));
    }

    fn expect_highest_accepted_block(&mut self, answer: Option<GlobalBlockId>) {
        self.highest_accepted_block = Some(answer);
    }

    fn expect_highest_finalized_block(&mut self, answer: Option<GlobalBlockId>) {
        self.highest_finalized_block = Some(answer);
    }

    fn expect_read_status(
        &mut self,
        with: Option<GlobalBlockId>,
        answer: impl Fn(&GlobalBlockId) -> Option<BlockStatus> + Send + Sync + 'static,
    ) {
        self.read_status.push((with, Box::new(answer)));
    }

    fn expect_read_header(
        &mut self,
        with: Option<GlobalBlockId>,
        answer: impl Fn(&GlobalBlockId) -> Option<BlockHeader> + Send + Sync + 'static,
    ) {
        self.read_header.push((with, Box::new(answer)));
    }
}

impl StorageReader for MockStorageReader {
    type Error = String;

    fn highest_accepted_block(&self) -> Result<Option<GlobalBlockId>, String> {
        Ok(self.highest_accepted_block.expect("unexpected call of highest_accepted_block"))
    }

    fn highest_finalized_block(&self) -> Result<Option<GlobalBlockId>, String> {
        Ok(self.highest_finalized_block.expect("unexpected call of highest_finalized_block"))
    }

    fn canonical_block_id(&self, number: u64) -> Result<Option<GlobalBlockId>, String> {
        let answer = self.canonical_block_id.as_ref().expect("unexpected call of canonical_block_id");
        Ok(answer(number))
    }

    fn read_status(&self, id: &GlobalBlockId) -> Result<Option<BlockStatus>, String> {
        for (with, answer) in &self.read_status {
            if with.is_none() || *with == Some(*id) {
                return Ok(answer(id));
            }
        }
        panic!("unexpected call of read_status");
    }

    fn read_header(&self, id: &GlobalBlockId) -> Result<Option<BlockHeader>, String> {
        for (with, answer) in &self.read_header {
            if with.is_none() || *with == Some(*id) {
                return Ok(answer(id));
            }
        }
        panic!("unexpected call of read_header");
    }
}

fn new_block_hash(n: u64, c: u8) -> BlockHash {
    let mut b = [0; 32];
    b[24..].copy_from_slice(&n.to_be_bytes());
    b[0] = c;
    BlockHash::from_slice(&b).unwrap()
}

fn new_block_id(num: u64) -> GlobalBlockId {
    let hash = new_block_hash(num, 0);
    GlobalBlockId::new(num, hash)
}

fn new_block_header(number: u64, hash: GlobalBlockId, parent_hash: GlobalBlockId) -> BlockHeader {
    BlockHeader {
        block_number: number,
        block_hash: Some(*hash.hash()),
        parent_block_hash: Some(*parent_hash.hash()),
    }
}

fn new_configuration(
    starting_cursor: Option<GlobalBlockId>,
    finality: DataFinality,
) -> StreamConfiguration<()> {
    StreamConfiguration { batch_size: 3, stream_id: 0, finality, starting_cursor, filter: () }
}

fn new_producer<R>(
    cursor: Option<GlobalBlockId>,
    finality: DataFinality,
    storage: Arc<R>,
) -> SequentialCursorProducer<R>
where
    R: StorageReader + Send + Sync + 'static,
    R::Error: std::fmt::Debug,
{
    let mut producer = SequentialCursorProducer::new(storage);
    producer.reconfigure(&new_configuration(cursor, finality)).unwrap();
    producer
}

/// A storage with every block canonical, and the given tips.
fn new_storage(accepted: Option<u64>, finalized: Option<u64>) -> MockStorageReader {
    let mut storage = MockStorageReader::new();
    storage.expect_canonical_block_id(|i| Some(new_block_id(i)));
    storage.expect_highest_accepted_block(accepted.map(new_block_id));
    storage.expect_highest_finalized_block(finalized.map(new_block_id));
    storage
}

/// The producer keeps producing finalized batches with the requested number of cursors.
///
/// Finality: FINALIZED
#[test]
fn test_produce_full_batch_finalized() {
    let storage = new_storage(Some(100), Some(90));

    let mut producer = new_producer(None, DataFinality::DataStatusFinalized, Arc::new(storage));

    let mut batches = Vec::new();
    for _ in 0..5 {
        batches.push(producer.next_cursor().unwrap().unwrap());
    }
    assert_eq!(batches.len(), 5);
    let mut i = 0;
    for batch in batches {
        let cursors = batch.as_finalized().unwrap();
        for cursor in cursors {
            assert_eq!(cursor.number(), i as u64);
            i += 1;
        }
    }
}

/// The producer doesn't produce any cursor if the requested block is after the most recent
/// finalized block.
///
/// Finality: FINALIZED
#[test]
fn test_produce_nothing_if_after_finalized_as_finalized() {
    let mut storage = new_storage(Some(100), Some(90));
    storage.expect_read_status(None, |_| Some(BlockStatus::AcceptedOnL1));

    let mut producer = new_producer(
        Some(new_block_id(90)),
        DataFinality::DataStatusFinalized,
        Arc::new(storage),
    );

    let batch = producer.next_cursor().unwrap();
    assert!(batch.is_none());
}

/// The transition between finalized and accepted. Since the requested data is finalized, the
/// producer should produce partial batches with only the finalized cursors.
///
/// Finality: FINALIZED
#[test]
fn test_reach_accepted_as_finalized() {
    let storage = new_storage(Some(15), Some(10));

    let mut producer = new_producer(None, DataFinality::DataStatusFinalized, Arc::new(storage));

    let mut batches = Vec::new();
    for _ in 0..4 {
        batches.push(producer.next_cursor().unwrap().unwrap());
    }
    assert_eq!(batches.len(), 4);
    let mut i = 0;
    for (batch_idx, batch) in batches.iter().enumerate() {
        let cursors = batch.as_finalized().unwrap();
        if batch_idx == 3 {
            // last batch is partial because it cannot contain block 11, which is accepted
            assert_eq!(cursors.len(), 2);
        } else {
            assert_eq!(cursors.len(), 3);
        }
        for cursor in cursors {
            assert_eq!(cursor.number(), i as u64);
            i += 1;
        }
    }
}

/// The producer starts producing new batches after the chain finality status is updated.
///
/// Finality: FINALIZED
#[test]
fn test_handle_finalized_message_as_finalized() {
    let storage = new_storage(Some(15), Some(10));

    let mut producer = new_producer(None, DataFinality::DataStatusFinalized, Arc::new(storage));

    for _ in 0..4 {
        let batch = producer.next_cursor().unwrap().unwrap();
        assert!(batch.as_finalized().is_some());
    }

    let batch = producer.next_cursor().unwrap();
    assert!(batch.is_none());

    producer.handle_ingestion_message(&IngestionMessage::Finalized(new_block_id(14))).unwrap();

    let mut expected_block = 11;
    for _ in 0..2 {
        let batch = producer.next_cursor().unwrap().unwrap();
        let cursors = batch.as_finalized().unwrap();
        for cursor in cursors {
            assert_eq!(cursor.number(), expected_block);
            expected_block += 1;
        }
    }

    let batch = producer.next_cursor().unwrap();
    assert!(batch.is_none());
}

/// The producer produces messages after the invalidated cursor.
///
/// Finality: FINALIZED
#[test]
fn test_handle_invalidate_message_as_finalized() {
    let mut storage = new_storage(Some(15), Some(10));
    storage.expect_read_status(None, |_| Some(BlockStatus::AcceptedOnL1));

    let mut producer = new_producer(
        Some(new_block_id(8)),
        DataFinality::DataStatusFinalized,
        Arc::new(storage),
    );

    let batch = producer.next_cursor().unwrap().unwrap();
    assert!(batch.as_finalized().is_some());

    let batch = producer.next_cursor().unwrap();
    assert!(batch.is_none());

    // invalidate after current. nothing happens
    producer.handle_ingestion_message(&IngestionMessage::Invalidate(new_block_id(14))).unwrap();

    let batch = producer.next_cursor().unwrap();
    assert!(batch.is_none());

    // invalidate before current. goes back
    producer.handle_ingestion_message(&IngestionMessage::Invalidate(new_block_id(4))).unwrap();

    // still no new finalized.
    let batch = producer.next_cursor().unwrap();
    assert!(batch.is_none());

    producer.handle_ingestion_message(&IngestionMessage::Finalized(new_block_id(6))).unwrap();

    let batch = producer.next_cursor().unwrap().unwrap();
    assert!(batch.as_finalized().is_some());
}

/// No data is produced if the node has not ingested any finalized block yet.
///
/// Finality: FINALIZED
#[test]
fn test_no_finalized_as_finalized() {
    let storage = new_storage(Some(14), None);

    let mut producer = new_producer(None, DataFinality::DataStatusFinalized, Arc::new(storage));

    let batch = producer.next_cursor().unwrap();
    assert!(batch.is_none());

    producer.handle_ingestion_message(&IngestionMessage::Finalized(new_block_id(13))).unwrap();

    let batch = producer.next_cursor().unwrap().unwrap();
    assert!(batch.as_finalized().is_some());
}

/// Finalized data is produced if the node has not ingested any accepted block yet.
///
/// Finality: FINALIZED
#[test]
fn test_no_accepted_as_finalized() {
    let storage = new_storage(None, Some(15));

    let mut producer = new_producer(None, DataFinality::DataStatusFinalized, Arc::new(storage));

    let batch = producer.next_cursor().unwrap().unwrap();
    assert!(batch.as_finalized().is_some());
}

/// The producer switches between producing finalized cursors and accepted cursors.
///
/// Finality: ACCEPTED
#[test]
fn test_full_batch_as_accepted() {
    let mut storage = new_storage(Some(15), Some(10));
    storage.expect_read_status(None, |_| Some(BlockStatus::AcceptedOnL1));

    let mut producer = new_producer(
        Some(new_block_id(8)),
        DataFinality::DataStatusAccepted,
        Arc::new(storage),
    );

    // finalized batch
    let batch = producer.next_cursor().unwrap().unwrap();
    assert!(batch.as_finalized().is_some());

    // accepted batches
    for block_num in 11..=15 {
        let batch = producer.next_cursor().unwrap().unwrap();
        assert!(batch.as_finalized().is_none());
        let accepted = batch.as_accepted().unwrap();
        assert_eq!(accepted.number(), block_num);
    }

    let batch = producer.next_cursor().unwrap();
    assert!(batch.is_none());
}

/// The producer goes back to producing finalized blocks after receiving a finalized message,
/// if the new finalized cursor is after the current cursor.
///
/// Finality: ACCEPTED
#[test]
fn test_handle_finalized_message_as_accepted() {
    let mut storage = new_storage(Some(15), Some(10));
    storage.expect_read_status(None, |_| Some(BlockStatus::AcceptedOnL1));

    let mut producer = new_producer(
        Some(new_block_id(8)),
        DataFinality::DataStatusAccepted,
        Arc::new(storage),
    );

    // finalized batch
    let batch = producer.next_cursor().unwrap().unwrap();
    assert!(batch.as_finalized().is_some());

    // one accepted batch
    let batch = producer.next_cursor().unwrap().unwrap();
    assert!(batch.as_finalized().is_none());
    let accepted = batch.as_accepted().unwrap();
    assert_eq!(accepted.number(), 11);

    producer.handle_ingestion_message(&IngestionMessage::Finalized(new_block_id(13))).unwrap();

    // finalized with block 12, 13
    let batch = producer.next_cursor().unwrap().unwrap();
    assert!(batch.as_finalized().is_some());

    // one accepted batch
    let batch = producer.next_cursor().unwrap().unwrap();
    assert!(batch.as_finalized().is_none());
    let accepted = batch.as_accepted().unwrap();
    assert_eq!(accepted.number(), 14);
}

/// The producer resumes producing accepted cursors after receiving an accepted message.
///
/// Finality: ACCEPTED
#[test]
fn test_handle_accepted_message_as_accepted() {
    let mut storage = new_storage(Some(15), Some(10));
    storage.expect_read_status(None, |_| Some(BlockStatus::AcceptedOnL1));

    let mut producer = new_producer(
        Some(new_block_id(11)),
        DataFinality::DataStatusAccepted,
        Arc::new(storage),
    );

    // accepted batches
    for block_num in 12..=15 {
        let batch = producer.next_cursor().unwrap().unwrap();
        assert!(batch.as_finalized().is_none());
        let accepted = batch.as_accepted().unwrap();
        assert_eq!(accepted.number(), block_num);
    }

    let batch = producer.next_cursor().unwrap();
    assert!(batch.is_none());

    producer.handle_ingestion_message(&IngestionMessage::Accepted(new_block_id(16))).unwrap();

    // one accepted batch
    let batch = producer.next_cursor().unwrap().unwrap();
    assert!(batch.as_finalized().is_none());
    let accepted = batch.as_accepted().unwrap();
    assert_eq!(accepted.number(), 16);

    let batch = producer.next_cursor().unwrap();
    assert!(batch.is_none());
}

/// The producer produces messages after the invalidated cursor.
///
/// Finality: ACCEPTED
#[test]
fn test_handle_invalidate_message_as_accepted() {
    let mut storage = new_storage(Some(15), Some(10));
    storage.expect_read_status(None, |_| Some(BlockStatus::AcceptedOnL1));

    let mut producer = new_producer(
        Some(new_block_id(11)),
        DataFinality::DataStatusAccepted,
        Arc::new(storage),
    );

    for _ in 0..2 {
        let batch = producer.next_cursor().unwrap().unwrap();
        assert!(batch.as_accepted().is_some());
    }

    // invalidate after current. nothing happens
    producer.handle_ingestion_message(&IngestionMessage::Invalidate(new_block_id(14))).unwrap();

    let batch = producer.next_cursor().unwrap().unwrap();
    assert_eq!(batch.as_accepted().unwrap().number(), 14);

    // invalidate before current. goes back
    producer.handle_ingestion_message(&IngestionMessage::Invalidate(new_block_id(11))).unwrap();

    // still no new accepted.
    let batch = producer.next_cursor().unwrap();
    assert!(batch.is_none());

    producer.handle_ingestion_message(&IngestionMessage::Accepted(new_block_id(15))).unwrap();

    let batch = producer.next_cursor().unwrap().unwrap();
    assert_eq!(batch.as_accepted().unwrap().number(), 12);
}

/// Data is produced if the node has not ingested any finalized data, but the client requested
/// accepted data. This happens on devnet.
///
/// Finality: ACCEPTED
#[test]
fn test_no_finalized_as_accepted() {
    let storage = new_storage(Some(14), None);

    let mut producer = new_producer(None, DataFinality::DataStatusAccepted, Arc::new(storage));

    let batch = producer.next_cursor().unwrap().unwrap();
    assert_eq!(batch.as_accepted().unwrap().number(), 0);
}

/// Finalized cursors are produced even if no accepted data has been ingested. This happens
/// when initially syncing the node.
///
/// Finality: ACCEPTED
#[test]
fn test_no_accepted_as_accepted() {
    let storage = new_storage(None, Some(15));

    let mut producer = new_producer(None, DataFinality::DataStatusAccepted, Arc::new(storage));

    let batch = producer.next_cursor().unwrap().unwrap();
    assert!(batch.as_finalized().is_some());
}

/// The pending producer produces finalized/accepted cursors until reaching the head. At that
/// point, it produces one pending block (if any).
///
/// Finality: PENDING
#[test]
fn test_produce_full_batch_pending() {
    let mut storage = new_storage(Some(15), Some(10));
    storage.expect_read_status(None, |_| Some(BlockStatus::AcceptedOnL1));

    let mut producer = new_producer(
        Some(new_block_id(8)),
        DataFinality::DataStatusPending,
        Arc::new(storage),
    );

    let batch = producer.next_cursor().unwrap().unwrap();
    assert!(batch.as_finalized().is_some());

    for i in 11..=15 {
        let batch = producer.next_cursor().unwrap().unwrap();
        assert_eq!(batch.as_accepted().unwrap().number(), i);
    }

    // no pending block yet.
    let batch = producer.next_cursor().unwrap();
    assert!(batch.is_none());

    producer.handle_ingestion_message(&IngestionMessage::Pending(new_block_id(16))).unwrap();

    let batch = producer.next_cursor().unwrap().unwrap();
    assert_eq!(batch.as_pending().unwrap().number(), 16);

    // only produce one pending.
    let batch = producer.next_cursor().unwrap();
    assert!(batch.is_none());

    producer.handle_ingestion_message(&IngestionMessage::Accepted(new_block_id(16))).unwrap();

    let batch = producer.next_cursor().unwrap().unwrap();
    assert_eq!(batch.as_accepted().unwrap().number(), 16);

    // no pending block yet.
    let batch = producer.next_cursor().unwrap();
    assert!(batch.is_none());
}

#[test]
fn test_configure_with_valid_starting_cursor() {
    let mut storage = new_storage(Some(15), Some(10));
    storage.expect_read_status(None, |_| Some(BlockStatus::AcceptedOnL1));

    let cursor = new_block_id(8);
    let mut producer = SequentialCursorProducer::new(Arc::new(storage));
    let response = producer
        .reconfigure(&new_configuration(Some(cursor), DataFinality::DataStatusAccepted))
        .unwrap();
    assert!(matches!(response, ReconfigureResponse::Valid));
}

#[test]
fn test_configure_with_invalidated_starting_cursor() {
    let mut storage = new_storage(Some(15), Some(10));
    storage.expect_read_status(Some(new_block_id(8)), |_| Some(BlockStatus::Rejected));
    storage.expect_read_status(Some(new_block_id(7)), |_| Some(BlockStatus::Rejected));
    storage.expect_read_status(Some(new_block_id(6)), |_| Some(BlockStatus::AcceptedOnL1));
    storage.expect_read_header(Some(new_block_id(8)), |_| {
        Some(new_block_header(8, new_block_id(8), new_block_id(7)))
    });
    storage.expect_read_header(Some(new_block_id(7)), |_| {
        Some(new_block_header(7, new_block_id(7), new_block_id(6)))
    });

    let cursor = new_block_id(8);
    let mut producer = SequentialCursorProducer::new(Arc::new(storage));
    let response = producer
        .reconfigure(&new_configuration(Some(cursor), DataFinality::DataStatusAccepted))
        .unwrap();
    assert!(matches!(response, ReconfigureResponse::Invalidate(_)));
}

#[test]
fn test_configure_with_non_existing_starting_cursor() {
    let mut storage = new_storage(Some(15), Some(10));
    storage.expect_read_status(None, |_| None);

    let cursor = new_block_id(8);
    let mut producer = SequentialCursorProducer::new(Arc::new(storage));
    let response = producer
        .reconfigure(&new_configuration(Some(cursor), DataFinality::DataStatusAccepted))
        .unwrap();
    assert!(matches!(response, ReconfigureResponse::MissingStartingCursor));
}
