//! The reward-credit model: how many credits a vote earns from the number of
//! slots between the slot it voted on and the block that finalized it.
use vstd::prelude::*;

verus! {

pub type Slot = u64;

/// Latency (in slots) that still earns the full credit.
pub const VOTE_CREDITS_GRACE_SLOTS: u8 = 2;

/// Credits a vote earns when it lands within the grace window.
pub const VOTE_CREDITS_MAXIMUM_PER_SLOT: u8 = 16;

/// Credits earned for a given latency: the maximum within the grace window,
/// one less for every slot beyond it, and never less than one.
pub open spec fn credits_for_latency(latency: int) -> int {
    if latency <= 2 {
        16
    } else if 16 - (latency - 2) >= 1 {
        16 - (latency - 2)
    } else {
        1
    }
}

/// Latency of a vote: slots from the voted slot to the finalizing slot,
/// zero when the finalizing slot is not later.
pub open spec fn latency_between(voted_slot: u64, finalized_slot: u64) -> int {
    if finalized_slot >= voted_slot {
        finalized_slot - voted_slot
    } else {
        0
    }
}

pub fn calculate_tvc_credits_from_latency(latency: u64) -> (credits: u64)
    ensures
        credits == credits_for_latency(latency as int),
        1 <= credits <= 16,
{
    if latency <= VOTE_CREDITS_GRACE_SLOTS as u64 {
        VOTE_CREDITS_MAXIMUM_PER_SLOT as u64
    } else {
        let penalty = latency - (VOTE_CREDITS_GRACE_SLOTS as u64);
        match (VOTE_CREDITS_MAXIMUM_PER_SLOT as u64).checked_sub(penalty) {
            Some(credits) if credits > 0 => credits,
            _ => 1,
        }
    }
}

/// Returns `(latency, credits)` for a vote on `voted_slot` finalized at `finalized_slot`.
pub fn calculate_tvc_credits(voted_slot: Slot, finalized_slot: Slot) -> (r: (u64, u64))
    ensures
        r.0 == latency_between(voted_slot, finalized_slot),
        r.1 == credits_for_latency(r.0 as int),
{
    let latency = finalized_slot.saturating_sub(voted_slot);
    let credits = calculate_tvc_credits_from_latency(latency);
    (latency, credits)
}

/// The five qualitative buckets a single vote's credits fall into.
#[derive(Debug, Clone, Copy, PartialEq, Eq, Structural)]
pub enum TvcPerformanceLevel {
    Optimal,
    Good,
    Fair,
    Poor,
    Critical,
}

pub open spec fn level_of_credits(credits: int) -> TvcPerformanceLevel {
    if credits == 16 {
        TvcPerformanceLevel::Optimal
    } else if 12 <= credits <= 15 {
        TvcPerformanceLevel::Good
    } else if 8 <= credits <= 11 {
        TvcPerformanceLevel::Fair
    } else if 4 <= credits <= 7 {
        TvcPerformanceLevel::Poor
    } else {
        TvcPerformanceLevel::Critical
    }
}

pub open spec fn level_name(level: TvcPerformanceLevel) -> Seq<char> {
    match level {
        TvcPerformanceLevel::Optimal => seq!['o', 'p', 't', 'i', 'm', 'a', 'l'],
        TvcPerformanceLevel::Good => seq!['g', 'o', 'o', 'd'],
        TvcPerformanceLevel::Fair => seq!['f', 'a', 'i', 'r'],
        TvcPerformanceLevel::Poor => seq!['p', 'o', 'o', 'r'],
        TvcPerformanceLevel::Critical => seq!['c', 'r', 'i', 't', 'i', 'c', 'a', 'l'],
    }
}

impl TvcPerformanceLevel {
    pub fn as_str(&self) -> (s: &'static str)
        ensures
            s@ == level_name(*self),
    {
        match self {
            TvcPerformanceLevel::Optimal => {
                proof { reveal_strlit("optimal"); }
                "optimal"
            },
            TvcPerformanceLevel::Good => {
                proof { reveal_strlit("good"); }
                "good"
            },
            TvcPerformanceLevel::Fair => {
                proof { reveal_strlit("fair"); }
                "fair"
            },
            TvcPerformanceLevel::Poor => {
                proof { reveal_strlit("poor"); }
                "poor"
            },
            TvcPerformanceLevel::Critical => {
                proof { reveal_strlit("critical"); }
                "critical"
            },
        }
    }
}

pub fn categorize_tvc_performance(tvc_credits: u64) -> (level: TvcPerformanceLevel)
    ensures
        level == level_of_credits(tvc_credits as int),
{
    if tvc_credits == 16 {
        TvcPerformanceLevel::Optimal
    } else if 12 <= tvc_credits && tvc_credits <= 15 {
        TvcPerformanceLevel::Good
    } else if 8 <= tvc_credits && tvc_credits <= 11 {
        TvcPerformanceLevel::Fair
    } else if 4 <= tvc_credits && tvc_credits <= 7 {
        TvcPerformanceLevel::Poor
    } else {
        TvcPerformanceLevel::Critical
    }
}

} // verus!
