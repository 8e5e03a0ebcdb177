//! Streaming of chain data to subscribers, consistent under reorganisations of the chain.
//!
//! A subscription names a starting cursor and how settled the data has to be. From then on it
//! gets the blocks of the chain in order, in batches, and an invalidation whenever blocks
//! that it holds have left the canonical chain.
//!
//! - [`block`]: hashes, cursors, statuses and headers.
//! - [`stream`]: what clients ask for, what the node reports, what the producers answer.
//! - [`storage`]: what is asked of the node's storage.
//! - [`state`]: the state of a cursor producer, and the steps that it takes.
//! - [`resolve`]: how a starting cursor is resolved.
//! - [`reads`]: what a poll reads from storage.
//! - [`cursor_producer`]: decides, for one subscription, which blocks go out next.
//! - [`data`]: decides which source of a subscription has its turn, and what goes out.
//! - [`trace`]: what holds of every run of a cursor producer.
//! - [`calls`]: every sequence of calls of a producer is such a run.

pub mod block;
pub mod calls;
pub mod cursor_producer;
pub mod data;
pub mod reads;
pub mod resolve;
pub mod state;
pub mod storage;
pub mod stream;
pub mod trace;
