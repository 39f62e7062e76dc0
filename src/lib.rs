//! Vote performance monitoring for one validator: correlates submitted
//! votes with the finalized blocks that carry them, scores each vote's
//! latency in reward credits, and keeps session statistics.
use vstd::prelude::*;

pub mod batch;
pub mod clock;
pub mod config;
pub mod credits;
pub mod decode;
pub mod error;
pub mod pipeline;
pub mod ring;
pub mod signature;
pub mod stats;
pub mod text;
pub mod tracker;
pub mod vote;

pub use batch::{batch_contains_slot, simd_min_latency, simd_sum_u64};
pub use config::{Config, PerformanceFilterConfig};
pub use credits::{
    calculate_tvc_credits, calculate_tvc_credits_from_latency, categorize_tvc_performance, Slot,
    TvcPerformanceLevel, VOTE_CREDITS_GRACE_SLOTS, VOTE_CREDITS_MAXIMUM_PER_SLOT,
};
pub use decode::{
    parse_vote_instruction_data, vote_slots_from_decoded, DecodedVote, VoteSlotInfo,
    VOTE_PROGRAM_ID,
};
pub use error::VoteMonitorError;
pub use pipeline::{
    process_finalized_block, process_finalized_block_at, process_transaction_in_block,
    process_vote_transaction, process_vote_transaction_at, BlockTransaction, BlockUpdate,
    InstructionInfo, MessageInfo, VoteTransactionInfo, VoteTransactionUpdate,
};
pub use ring::CircularBuffer;
pub use signature::SignatureCache;
pub use stats::{CircularVoteBuffer, PerformanceStats, PerformanceStatus, PoorPerformanceEvent};
pub use text::{format_duration, format_duration_secs};
pub use tracker::{VoteTracker, VoteTrackerStats};
pub use vote::{ConfirmedVote, PendingVote};

verus! {

} // verus!
