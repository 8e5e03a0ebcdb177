use cursor_stream::block::{BlockHash, BlockHeader, GlobalBlockId, InvalidBlock};
use cursor_stream::cursor_producer::lowest_cursor;
use cursor_stream::resolve::parent_below;
use cursor_stream::state::{BatchConfiguration, IngestionState, Lookup};
use cursor_stream::stream::{BatchCursor, DataFinality, IngestionMessage, IngestionResponse};

fn hash_of(byte: u8) -> BlockHash {
    BlockHash::from_slice(&[byte; 32]).unwrap()
}

fn block(number: u64) -> GlobalBlockId {
    GlobalBlockId::new(number, hash_of(1))
}

fn other_block(number: u64) -> GlobalBlockId {
    GlobalBlockId::new(number, hash_of(2))
}

fn configuration(current: Option<u64>, finality: DataFinality) -> BatchConfiguration {
    BatchConfiguration {
        current: current.map(block),
        pending_sent: false,
        data_finality: finality,
        batch_size: 3,
    }
}

fn tips(finalized: Option<u64>, accepted: Option<u64>, pending: Option<u64>) -> IngestionState {
    IngestionState {
        finalized: finalized.map(block),
        accepted: accepted.map(block),
        pending: pending.map(block),
    }
}

const ALL_FINALITIES: [DataFinality; 4] = [
    DataFinality::DataStatusUnknown,
    DataFinality::DataStatusPending,
    DataFinality::DataStatusAccepted,
    DataFinality::DataStatusFinalized,
];

#[test]
fn lowest_cursor_takes_the_lower_number() {
    assert_eq!(lowest_cursor(block(3), other_block(5)), block(3));
    assert_eq!(lowest_cursor(block(5), other_block(3)), other_block(3));
}

#[test]
fn lowest_cursor_takes_the_second_on_equal_numbers() {
    assert_eq!(lowest_cursor(block(4), other_block(4)), other_block(4));
    assert_eq!(lowest_cursor(other_block(4), block(4)), block(4));
}

#[test]
fn lookup_starts_at_block_zero() {
    for finality in ALL_FINALITIES {
        let lookup = configuration(None, finality).next_lookup(&tips(Some(90), Some(100), None));
        assert_eq!(lookup, Lookup::Finalized { first: 0, last: 2 });
    }
}

#[test]
fn lookup_takes_a_full_batch_of_finalized_blocks() {
    let lookup = configuration(Some(2), DataFinality::DataStatusFinalized)
        .next_lookup(&tips(Some(90), Some(100), None));
    assert_eq!(lookup, Lookup::Finalized { first: 3, last: 5 });
}

#[test]
fn lookup_stops_at_the_finalized_tip() {
    let state = tips(Some(10), Some(15), None);
    let finality = DataFinality::DataStatusAccepted;
    assert_eq!(
        configuration(Some(6), finality).next_lookup(&state),
        Lookup::Finalized { first: 7, last: 9 }
    );
    assert_eq!(
        configuration(Some(7), finality).next_lookup(&state),
        Lookup::Finalized { first: 8, last: 10 }
    );
    assert_eq!(
        configuration(Some(8), finality).next_lookup(&state),
        Lookup::Finalized { first: 9, last: 10 }
    );
    assert_eq!(
        configuration(Some(9), finality).next_lookup(&state),
        Lookup::Finalized { first: 10, last: 10 }
    );
    assert_eq!(configuration(Some(10), finality).next_lookup(&state), Lookup::Accepted { number: 11 });
}

#[test]
fn lookup_with_batch_size_one() {
    let mut configuration = configuration(Some(4), DataFinality::DataStatusFinalized);
    configuration.batch_size = 1;
    assert_eq!(
        configuration.next_lookup(&tips(Some(10), None, None)),
        Lookup::Finalized { first: 5, last: 5 }
    );
}

#[test]
fn lookup_with_batch_size_zero_finds_nothing() {
    let mut configuration = configuration(None, DataFinality::DataStatusPending);
    configuration.batch_size = 0;
    assert_eq!(configuration.next_lookup(&tips(Some(10), Some(15), Some(16))), Lookup::Nothing);
    // Past the finalized tip the batch size does not count.
    configuration.current = Some(block(10));
    assert_eq!(
        configuration.next_lookup(&tips(Some(10), Some(15), Some(16))),
        Lookup::Accepted { number: 11 }
    );
}

#[test]
fn lookup_with_a_huge_batch_size_stops_at_the_finalized_tip() {
    let mut configuration = configuration(Some(4), DataFinality::DataStatusFinalized);
    configuration.batch_size = usize::MAX;
    assert_eq!(
        configuration.next_lookup(&tips(Some(u64::MAX), None, None)),
        Lookup::Finalized { first: 5, last: 4u64.saturating_add(usize::MAX as u64) }
    );
    assert_eq!(
        configuration.next_lookup(&tips(Some(10), None, None)),
        Lookup::Finalized { first: 5, last: 10 }
    );
}

#[test]
fn lookup_after_the_last_block_finds_nothing() {
    let mut configuration = configuration(None, DataFinality::DataStatusPending);
    configuration.current = Some(block(u64::MAX));
    assert_eq!(
        configuration.next_lookup(&tips(Some(u64::MAX), Some(u64::MAX), Some(u64::MAX))),
        Lookup::Nothing
    );
    configuration.current = Some(block(u64::MAX - 1));
    assert_eq!(
        configuration.next_lookup(&tips(Some(u64::MAX), Some(u64::MAX), Some(u64::MAX))),
        Lookup::Finalized { first: u64::MAX, last: u64::MAX }
    );
}

#[test]
fn lookup_of_accepted_blocks_depends_on_the_finality() {
    let state = tips(Some(10), Some(15), None);
    let expected = [
        (DataFinality::DataStatusUnknown, Lookup::Nothing),
        (DataFinality::DataStatusFinalized, Lookup::Nothing),
        (DataFinality::DataStatusAccepted, Lookup::Accepted { number: 12 }),
        (DataFinality::DataStatusPending, Lookup::Accepted { number: 12 }),
    ];
    for (finality, lookup) in expected {
        assert_eq!(configuration(Some(11), finality).next_lookup(&state), lookup);
    }
}

#[test]
fn lookup_of_the_pending_block_depends_on_the_finality() {
    let state = tips(Some(10), Some(15), Some(16));
    let expected = [
        (DataFinality::DataStatusUnknown, Lookup::Nothing),
        (DataFinality::DataStatusFinalized, Lookup::Nothing),
        (DataFinality::DataStatusAccepted, Lookup::Nothing),
        (DataFinality::DataStatusPending, Lookup::Pending { number: 16 }),
    ];
    for (finality, lookup) in expected {
        assert_eq!(configuration(Some(15), finality).next_lookup(&state), lookup);
    }
}

#[test]
fn lookup_of_the_pending_block_happens_once() {
    let mut configuration = configuration(Some(15), DataFinality::DataStatusPending);
    configuration.pending_sent = true;
    assert_eq!(configuration.next_lookup(&tips(Some(10), Some(15), Some(16))), Lookup::Nothing);
}

#[test]
fn lookup_past_every_tip_finds_nothing() {
    for finality in ALL_FINALITIES {
        let configuration = configuration(Some(16), finality);
        assert_eq!(configuration.next_lookup(&tips(Some(10), Some(15), Some(16))), Lookup::Nothing);
        assert_eq!(configuration.next_lookup(&tips(None, None, None)), Lookup::Nothing);
    }
}

#[test]
fn lookup_without_finalized_tip_starts_with_accepted_blocks() {
    let lookup = configuration(None, DataFinality::DataStatusAccepted)
        .next_lookup(&tips(None, Some(14), None));
    assert_eq!(lookup, Lookup::Accepted { number: 0 });
}

#[test]
fn lookup_does_not_skip_to_the_pending_tip_below_the_accepted_tip() {
    // The accepted path is taken, and it yields nothing for a client of finalized data, even
    // though a pending block is there.
    let lookup = configuration(Some(11), DataFinality::DataStatusFinalized)
        .next_lookup(&tips(Some(10), Some(15), Some(16)));
    assert_eq!(lookup, Lookup::Nothing);
}

#[test]
fn produce_finalized_advances_to_the_last_block() {
    let mut configuration = configuration(Some(8), DataFinality::DataStatusFinalized);
    let batch = configuration.produce(Lookup::Finalized { first: 9, last: 11 }, vec![block(9), block(10)]);
    assert_eq!(batch, Some(BatchCursor::Finalized(Some(block(8)), vec![block(9), block(10)])));
    assert_eq!(configuration.current, Some(block(10)));
    assert!(!configuration.pending_sent);
    assert_eq!(configuration.batch_size, 3);
    assert_eq!(configuration.data_finality, DataFinality::DataStatusFinalized);
}

#[test]
fn produce_finalized_leaves_out_what_goes_beyond_the_lookup() {
    let mut configuration = configuration(None, DataFinality::DataStatusFinalized);
    let found = vec![block(0), block(1), block(2), block(3)];
    let batch = configuration.produce(Lookup::Finalized { first: 0, last: 2 }, found);
    assert_eq!(batch, Some(BatchCursor::Finalized(None, vec![block(0), block(1), block(2)])));
    assert_eq!(configuration.current, Some(block(2)));
}

#[test]
fn produce_nothing_found_changes_nothing() {
    let lookups = [
        Lookup::Nothing,
        Lookup::Finalized { first: 9, last: 11 },
        Lookup::Accepted { number: 9 },
        Lookup::Pending { number: 9 },
    ];
    for lookup in lookups {
        let before = configuration(Some(8), DataFinality::DataStatusPending);
        let mut after = before;
        assert_eq!(after.produce(lookup, vec![]), None);
        assert_eq!(after, before);
    }
}

#[test]
fn produce_for_an_empty_lookup_changes_nothing() {
    for lookup in [Lookup::Nothing, Lookup::Finalized { first: 5, last: 4 }] {
        let before = configuration(Some(8), DataFinality::DataStatusPending);
        let mut after = before;
        assert_eq!(after.produce(lookup, vec![block(9)]), None);
        assert_eq!(after, before);
    }
}

#[test]
fn produce_accepted_advances() {
    let mut configuration = configuration(Some(11), DataFinality::DataStatusAccepted);
    let batch = configuration.produce(Lookup::Accepted { number: 12 }, vec![block(12), block(13)]);
    assert_eq!(batch, Some(BatchCursor::Accepted(Some(block(11)), block(12))));
    assert_eq!(configuration.current, Some(block(12)));
    assert!(!configuration.pending_sent);
}

#[test]
fn produce_pending_does_not_advance() {
    let mut configuration = configuration(Some(15), DataFinality::DataStatusPending);
    let batch = configuration.produce(Lookup::Pending { number: 16 }, vec![block(16)]);
    assert_eq!(batch, Some(BatchCursor::Pending(Some(block(15)), block(16))));
    assert_eq!(configuration.current, Some(block(15)));
    assert!(configuration.pending_sent);
}

#[test]
fn ingest_pending_sets_the_tip_and_allows_one_more_pending_batch() {
    let mut state = tips(Some(10), Some(15), None);
    let mut sent = configuration(Some(15), DataFinality::DataStatusPending);
    sent.pending_sent = true;
    let mut configuration = Some(sent);
    let response = state.ingest(&mut configuration, &IngestionMessage::Pending(block(16)));
    assert_eq!(response, IngestionResponse::Valid);
    assert_eq!(state, tips(Some(10), Some(15), Some(16)));
    assert_eq!(configuration, Some(BatchConfiguration { pending_sent: false, ..sent }));
}

#[test]
fn ingest_accepted_clears_the_finalized_tip() {
    let mut state = tips(Some(10), Some(15), Some(16));
    let before = configuration(Some(15), DataFinality::DataStatusPending);
    let mut configuration = Some(BatchConfiguration { pending_sent: true, ..before });
    let response = state.ingest(&mut configuration, &IngestionMessage::Accepted(other_block(16)));
    assert_eq!(response, IngestionResponse::Valid);
    assert_eq!(
        state,
        IngestionState { finalized: None, accepted: Some(other_block(16)), pending: Some(block(16)) }
    );
    assert_eq!(configuration, Some(BatchConfiguration { pending_sent: true, ..before }));
}

#[test]
fn ingest_finalized_sets_the_finalized_tip() {
    let mut state = tips(None, Some(15), Some(16));
    let mut configuration = None;
    let response = state.ingest(&mut configuration, &IngestionMessage::Finalized(block(14)));
    assert_eq!(response, IngestionResponse::Valid);
    assert_eq!(state, tips(Some(14), Some(15), Some(16)));
    assert_eq!(configuration, None);
}

#[test]
fn ingest_invalidate_before_the_position_goes_back() {
    let mut state = tips(Some(10), Some(15), Some(16));
    let mut configuration = Some(configuration(Some(12), DataFinality::DataStatusAccepted));
    let response = state.ingest(&mut configuration, &IngestionMessage::Invalidate(other_block(4)));
    assert_eq!(response, IngestionResponse::Invalidate(other_block(4)));
    assert_eq!(
        state,
        IngestionState {
            finalized: Some(other_block(4)),
            accepted: Some(other_block(4)),
            pending: None,
        }
    );
    assert_eq!(configuration.unwrap().current, Some(other_block(4)));
}

#[test]
fn ingest_invalidate_past_the_position_is_silent() {
    let mut state = tips(Some(10), Some(15), Some(16));
    let before = configuration(Some(12), DataFinality::DataStatusAccepted);
    let mut configuration = Some(before);
    let response = state.ingest(&mut configuration, &IngestionMessage::Invalidate(other_block(14)));
    assert_eq!(response, IngestionResponse::Valid);
    assert_eq!(
        state,
        IngestionState { finalized: Some(block(10)), accepted: Some(other_block(14)), pending: None }
    );
    assert_eq!(configuration, Some(before));
}

#[test]
fn ingest_invalidate_at_the_position_is_silent_and_takes_the_new_hash() {
    let mut state = tips(Some(12), Some(12), None);
    let mut configuration = Some(configuration(Some(12), DataFinality::DataStatusAccepted));
    let response = state.ingest(&mut configuration, &IngestionMessage::Invalidate(other_block(12)));
    assert_eq!(response, IngestionResponse::Valid);
    assert_eq!(
        state,
        IngestionState {
            finalized: Some(other_block(12)),
            accepted: Some(other_block(12)),
            pending: None,
        }
    );
    assert_eq!(configuration.unwrap().current, Some(other_block(12)));
}

#[test]
fn ingest_invalidate_before_the_first_block_is_silent() {
    let mut state = tips(None, None, Some(3));
    let before = configuration(None, DataFinality::DataStatusAccepted);
    let mut configuration = Some(before);
    let response = state.ingest(&mut configuration, &IngestionMessage::Invalidate(block(0)));
    assert_eq!(response, IngestionResponse::Valid);
    assert_eq!(state, tips(None, None, None));
    assert_eq!(configuration, Some(before));
}

#[test]
fn ingest_invalidate_without_configuration_is_silent() {
    let mut state = tips(Some(10), Some(15), Some(16));
    let mut configuration = None;
    let response = state.ingest(&mut configuration, &IngestionMessage::Invalidate(block(4)));
    assert_eq!(response, IngestionResponse::Valid);
    assert_eq!(state, tips(Some(4), Some(4), None));
    assert_eq!(configuration, None);
}

#[test]
fn parent_below_follows_the_header() {
    let header = BlockHeader {
        block_number: 8,
        block_hash: Some(hash_of(8)),
        parent_block_hash: Some(hash_of(7)),
    };
    assert_eq!(parent_below(&block(8), Some(header)), Ok(Some(GlobalBlockId::new(7, hash_of(7)))));
    // A header below the block is taken as it is.
    assert_eq!(parent_below(&block(20), Some(header)), Ok(Some(GlobalBlockId::new(7, hash_of(7)))));
}

#[test]
fn parent_below_without_header_has_no_parent() {
    assert_eq!(parent_below(&block(8), None), Ok(None));
}

#[test]
fn parent_below_refuses_a_parent_that_is_not_below() {
    let header = BlockHeader {
        block_number: 9,
        block_hash: Some(hash_of(9)),
        parent_block_hash: Some(hash_of(8)),
    };
    assert_eq!(parent_below(&block(8), Some(header)), Err(InvalidBlock::UnexpectedNumber));
    assert_eq!(parent_below(&block(7), Some(header)), Err(InvalidBlock::UnexpectedNumber));
    assert_eq!(parent_below(&block(9), Some(header)), Ok(Some(GlobalBlockId::new(8, hash_of(8)))));
}

#[test]
fn parent_below_hands_on_what_the_header_lacks() {
    let no_hash = BlockHeader { block_number: 8, block_hash: None, parent_block_hash: None };
    assert_eq!(parent_below(&block(8), Some(no_hash)), Err(InvalidBlock::MissingHash));
    let genesis = BlockHeader { block_number: 0, block_hash: None, parent_block_hash: Some(hash_of(1)) };
    assert_eq!(parent_below(&block(0), Some(genesis)), Err(InvalidBlock::MissingParent));
}
