//! The two records of a vote's life: pending between submission and
//! finalization, and confirmed once a finalized block carries it.
use vstd::prelude::*;
use std::sync::Arc;
use crate::credits::{credits_for_latency, latency_between, Slot};

verus! {

/// A vote seen in a transaction, waiting for a finalized block.
#[derive(Debug)]
pub struct PendingVote {
    /// The signature's text, shared with the signature cache.
    pub signature: Arc<String>,
    pub voted_slots: Vec<Slot>,
    pub transaction_slot: Slot,
    /// Milliseconds since the Unix epoch when the vote was seen.
    pub timestamp: i64,
    pub instruction_data: Vec<u8>,
}

pub struct PendingVoteView {
    pub signature: Seq<char>,
    pub voted_slots: Seq<Slot>,
    pub transaction_slot: Slot,
    pub timestamp: i64,
    pub instruction_data: Seq<u8>,
}

impl View for PendingVote {
    type V = PendingVoteView;

    open spec fn view(&self) -> PendingVoteView {
        PendingVoteView {
            signature: self.signature@,
            voted_slots: self.voted_slots@,
            transaction_slot: self.transaction_slot,
            timestamp: self.timestamp,
            instruction_data: self.instruction_data@,
        }
    }
}

/// A vote matched with the finalized block that carried it.
#[derive(Debug)]
pub struct ConfirmedVote {
    /// The signature's text, shared with the signature cache.
    pub signature: Arc<String>,
    pub voted_slot: Slot,
    pub finalized_slot: Slot,
    pub latency: u64,
    pub tvc_credits: u64,
    /// Milliseconds since the Unix epoch when the confirmation was made.
    pub timestamp: i64,
}

pub struct ConfirmedVoteView {
    pub signature: Seq<char>,
    pub voted_slot: Slot,
    pub finalized_slot: Slot,
    pub latency: u64,
    pub tvc_credits: u64,
    pub timestamp: i64,
}

impl View for ConfirmedVote {
    type V = ConfirmedVoteView;

    open spec fn view(&self) -> ConfirmedVoteView {
        ConfirmedVoteView {
            signature: self.signature@,
            voted_slot: self.voted_slot,
            finalized_slot: self.finalized_slot,
            latency: self.latency,
            tvc_credits: self.tvc_credits,
            timestamp: self.timestamp,
        }
    }
}

impl Clone for ConfirmedVote {
    fn clone(&self) -> (r: Self)
        ensures
            r == *self,
    {
        ConfirmedVote {
            signature: self.signature.clone(),
            voted_slot: self.voted_slot,
            finalized_slot: self.finalized_slot,
            latency: self.latency,
            tvc_credits: self.tvc_credits,
            timestamp: self.timestamp,
        }
    }
}

/// The confirmation of a vote on `voted_slot` finalized at `finalized_slot`:
/// latency and credits follow from the two slots alone.
pub open spec fn confirmation_of(
    signature: Seq<char>,
    voted_slot: Slot,
    finalized_slot: Slot,
    timestamp: i64,
) -> ConfirmedVoteView {
    ConfirmedVoteView {
        signature,
        voted_slot,
        finalized_slot,
        latency: latency_between(voted_slot, finalized_slot) as u64,
        tvc_credits: credits_for_latency(latency_between(voted_slot, finalized_slot)) as u64,
        timestamp,
    }
}

/// Every confirmation earns between 1 and 16 credits.
pub proof fn lemma_confirmation_credits_in_range(
    signature: Seq<char>,
    voted_slot: Slot,
    finalized_slot: Slot,
    timestamp: i64,
)
    ensures
        1 <= confirmation_of(signature, voted_slot, finalized_slot, timestamp).tvc_credits <= 16,
{
}

/// The view of an optional confirmation.
pub open spec fn opt_view(r: Option<ConfirmedVote>) -> Option<ConfirmedVoteView> {
    match r {
        Some(c) => Some(c@),
        None => None,
    }
}

} // verus!
