//! The vote correlator: holds votes between submission and finalization and
//! matches finalized votes back to them.
use vstd::prelude::*;
use std::sync::Arc;
use crate::clock::now_millis;
use crate::credits::{calculate_tvc_credits, calculate_tvc_credits_from_latency, credits_for_latency, Slot};
use crate::ring::{lemma_pushed_map, pushed, CircularBuffer};
use crate::signature::{base58_of, signature_key, SignatureCache};
use crate::vote::{opt_view, confirmation_of, ConfirmedVote, ConfirmedVoteView, PendingVote, PendingVoteView};

verus! {

/// How many recent confirmations the tracker keeps.
pub const CONFIRMED_CAPACITY: usize = 100;

/// How many recently processed block slots the tracker remembers.
pub const PROCESSED_CAPACITY: usize = 50;

/// How many signature texts the tracker remembers.
pub const SIGNATURE_CACHE_CAPACITY: usize = 2048;

/// Pending votes whose transaction is this many slots older than the highest
/// processed block are dropped by a sweep.
pub const PENDING_RETENTION_SLOTS: u64 = 100;

/// Least time between two sweeps of the pending votes, in milliseconds.
pub const CLEANUP_INTERVAL_MS: i64 = 60_000;

/// Sizes of the tracker's tables.
#[derive(Debug, Clone, Copy, PartialEq, Eq, Structural)]
pub struct VoteTrackerStats {
    pub pending_votes: usize,
    pub confirmed_votes: usize,
    pub processed_slots: usize,
}

/// The state of a tracker, as the contracts see it.
pub struct TrackerView {
    /// Votes awaiting confirmation, at most one per signature.
    pub pending: Seq<PendingVoteView>,
    /// Recent confirmations of pending votes, oldest first.
    pub confirmed: Seq<ConfirmedVoteView>,
    /// Recently processed block slots, oldest first.
    pub processed: Seq<Slot>,
    /// Highest block slot ever marked processed (0 before any).
    pub highest_processed: Slot,
    /// When the pending votes were last swept, in milliseconds.
    pub last_cleanup_time: i64,
}

/// Index of the pending vote with this signature, or -1.
pub open spec fn pending_index(pending: Seq<PendingVoteView>, signature: Seq<char>) -> int
    decreases pending.len(),
{
    if pending.len() == 0 {
        -1
    } else if pending.last().signature == signature {
        pending.len() - 1
    } else {
        pending_index(pending.drop_last(), signature)
    }
}

pub open spec fn unique_signatures(pending: Seq<PendingVoteView>) -> bool {
    forall|i: int, j: int|
        0 <= i < pending.len() && 0 <= j < pending.len() && i != j ==> pending[i].signature
            != pending[j].signature
}

pub proof fn lemma_pending_index(pending: Seq<PendingVoteView>, signature: Seq<char>)
    ensures
        -1 <= pending_index(pending, signature) < pending.len(),
        pending_index(pending, signature) >= 0 ==> pending[pending_index(
            pending,
            signature,
        )].signature == signature,
        pending_index(pending, signature) == -1 ==> forall|j: int|
            0 <= j < pending.len() ==> #[trigger] pending[j].signature != signature,
    decreases pending.len(),
{
    if pending.len() > 0 {
        lemma_pending_index(pending.drop_last(), signature);
        if pending_index(pending, signature) == -1 {
            assert forall|j: int| 0 <= j < pending.len() implies #[trigger] pending[j].signature
                != signature by {
                if j < pending.len() - 1 {
                    assert(pending[j] == pending.drop_last()[j]);
                }
            }
        }
    }
}

/// The outcome of confirming `voted_slot` for `signature` in a block finalized
/// at `finalized_slot`: the new state and the confirmation, if any.
pub open spec fn confirm_spec(
    v: TrackerView,
    signature: Seq<char>,
    voted_slot: Slot,
    finalized_slot: Slot,
    timestamp: i64,
) -> (TrackerView, Option<ConfirmedVoteView>) {
    let i = pending_index(v.pending, signature);
    let c = confirmation_of(signature, voted_slot, finalized_slot, timestamp);
    if finalized_slot < voted_slot {
        (v, None)
    } else if i < 0 {
        (v, Some(c))
    } else if v.pending[i].voted_slots.contains(voted_slot) {
        (
            TrackerView {
                pending: v.pending.remove(i),
                confirmed: pushed(v.confirmed, c, CONFIRMED_CAPACITY as nat),
                ..v
            },
            Some(c),
        )
    } else {
        (v, None)
    }
}

/// Whether a pending vote survives a sweep with this cutoff.
pub open spec fn survives_sweep(p: PendingVoteView, cutoff: Slot) -> bool {
    p.transaction_slot > cutoff
}

/// The pending votes that survive a sweep, in their order.
pub open spec fn swept(pending: Seq<PendingVoteView>, cutoff: Slot) -> Seq<PendingVoteView>
    decreases pending.len(),
{
    if pending.len() == 0 {
        pending
    } else if survives_sweep(pending.last(), cutoff) {
        swept(pending.drop_last(), cutoff).push(pending.last())
    } else {
        swept(pending.drop_last(), cutoff)
    }
}

/// The slot below which (inclusive) a sweep drops pending votes.
pub open spec fn sweep_cutoff(highest_processed: Slot) -> Slot {
    if highest_processed >= PENDING_RETENTION_SLOTS {
        (highest_processed - PENDING_RETENTION_SLOTS) as Slot
    } else {
        0
    }
}

pub open spec fn cleanup_spec(v: TrackerView, now: i64) -> TrackerView {
    TrackerView {
        pending: swept(v.pending, sweep_cutoff(v.highest_processed)),
        last_cleanup_time: now,
        ..v
    }
}

/// Whether a sweep is due at `now`.
pub open spec fn cleanup_due(v: TrackerView, now: i64) -> bool {
    now - v.last_cleanup_time >= CLEANUP_INTERVAL_MS
}

/// Adding a pending vote: it replaces the entry of the same signature or is
/// appended; then, if a sweep is due, the pending votes are swept.
pub open spec fn add_pending_spec(v: TrackerView, p: PendingVoteView, now: i64) -> TrackerView {
    let i = pending_index(v.pending, p.signature);
    let v1 = TrackerView {
        pending: if i >= 0 {
            v.pending.update(i, p)
        } else {
            v.pending.push(p)
        },
        ..v
    };
    if cleanup_due(v1, now) {
        cleanup_spec(v1, now)
    } else {
        v1
    }
}

pub open spec fn mark_processed_spec(v: TrackerView, slot: Slot) -> TrackerView {
    TrackerView {
        processed: pushed(v.processed, slot, PROCESSED_CAPACITY as nat),
        highest_processed: if slot > v.highest_processed {
            slot
        } else {
            v.highest_processed
        },
        ..v
    }
}

/// A confirmation whose finalized slot precedes the voted slot is rejected:
/// no confirmation, and the state is left as it was.
pub proof fn lemma_reject_finalized_before_voted(
    v: TrackerView,
    signature: Seq<char>,
    voted_slot: Slot,
    finalized_slot: Slot,
    timestamp: i64,
)
    requires
        finalized_slot < voted_slot,
    ensures
        confirm_spec(v, signature, voted_slot, finalized_slot, timestamp) == (
            v,
            None::<ConfirmedVoteView>,
        ),
{
}

/// Confirming one of a pending vote's slots yields a confirmation with the
/// latency measured from that slot and removes the whole pending entry, so a
/// later confirmation for the same signature, of any slot, takes the path of
/// a vote never seen pending: it changes nothing and is computed from the two
/// slots alone.
pub proof fn lemma_confirm_removes_whole_pending_entry(
    v: TrackerView,
    signature: Seq<char>,
    voted_slot: Slot,
    finalized_slot: Slot,
    timestamp: i64,
    later_slot: Slot,
    later_finalized_slot: Slot,
    later_timestamp: i64,
)
    requires
        unique_signatures(v.pending),
        pending_index(v.pending, signature) >= 0,
        v.pending[pending_index(v.pending, signature)].voted_slots.contains(voted_slot),
        voted_slot <= finalized_slot,
        later_slot <= later_finalized_slot,
    ensures
        ({
            let (v1, r) = confirm_spec(v, signature, voted_slot, finalized_slot, timestamp);
            &&& r matches Some(c) && c.latency == finalized_slot - voted_slot && c.tvc_credits
                == credits_for_latency(finalized_slot - voted_slot)
            &&& pending_index(v1.pending, signature) == -1
            &&& v1.pending.len() == v.pending.len() - 1
            &&& confirm_spec(v1, signature, later_slot, later_finalized_slot, later_timestamp) == (
                v1,
                Some(confirmation_of(signature, later_slot, later_finalized_slot, later_timestamp)),
            )
        }),
{
    let i = pending_index(v.pending, signature);
    lemma_pending_index(v.pending, signature);
    let v1 = confirm_spec(v, signature, voted_slot, finalized_slot, timestamp).0;
    assert(v1.pending == v.pending.remove(i));
    lemma_pending_index(v1.pending, signature);
    if pending_index(v1.pending, signature) >= 0 {
        let j = pending_index(v1.pending, signature);
        let j0 = if j < i { j } else { j + 1 };
        assert(v1.pending[j] == v.pending[j0]);
    }
}

fn contains_slot(slots: &Vec<Slot>, slot: Slot) -> (r: bool)
    ensures
        r == slots@.contains(slot),
{
    let mut i: usize = 0;
    while i < slots.len()
        invariant
            i <= slots@.len(),
            forall|k: int| 0 <= k < i ==> slots@[k] != slot,
        decreases slots@.len() - i,
    {
        if slots[i] == slot {
            return true;
        }
        i = i + 1;
    }
    false
}

/// Correlates vote transactions with the finalized blocks that carry them.
#[derive(Debug)]
pub struct VoteTracker {
    pending_votes: Vec<PendingVote>,
    confirmed_votes: CircularBuffer<ConfirmedVote>,
    processed_slots: CircularBuffer<Slot>,
    signature_cache: SignatureCache,
    highest_processed_slot: Slot,
    last_cleanup_time: i64,
}

impl View for VoteTracker {
    type V = TrackerView;

    closed spec fn view(&self) -> TrackerView {
        TrackerView {
            pending: self.pending_votes@.map_values(|p: PendingVote| p@),
            confirmed: self.confirmed_votes@.map_values(|c: ConfirmedVote| c@),
            processed: self.processed_slots@,
            highest_processed: self.highest_processed_slot,
            last_cleanup_time: self.last_cleanup_time,
        }
    }
}

impl VoteTracker {
    pub closed spec fn wf(&self) -> bool {
        &&& self.confirmed_votes.wf()
        &&& self.confirmed_votes.spec_capacity() == CONFIRMED_CAPACITY
        &&& self.processed_slots.wf()
        &&& self.processed_slots.spec_capacity() == PROCESSED_CAPACITY
        &&& self.signature_cache.wf()
        &&& unique_signatures(self@.pending)
    }

    /// A well-formed tracker holds at most one pending vote per signature.
    pub proof fn lemma_signatures_unique(&self)
        requires
            self.wf(),
        ensures
            unique_signatures(self@.pending),
    {
    }

    /// A well-formed tracker holds at most `CONFIRMED_CAPACITY` recent
    /// confirmations and at most `PROCESSED_CAPACITY` processed slots.
    pub proof fn lemma_ring_bounds(&self)
        requires
            self.wf(),
        ensures
            self@.confirmed.len() <= CONFIRMED_CAPACITY,
            self@.processed.len() <= PROCESSED_CAPACITY,
    {
        self.confirmed_votes.lemma_len_bound();
        self.processed_slots.lemma_len_bound();
    }

    /// A tracker with no votes, whose sweep clock starts at `now`.
    pub fn new_at(now: i64) -> (r: Self)
        ensures
            r.wf(),
            r@.pending.len() == 0,
            r@.confirmed.len() == 0,
            r@.processed.len() == 0,
            r@.highest_processed == 0,
            r@.last_cleanup_time == now,
    {
        let r = VoteTracker {
            pending_votes: Vec::new(),
            confirmed_votes: CircularBuffer::new(CONFIRMED_CAPACITY),
            processed_slots: CircularBuffer::new(PROCESSED_CAPACITY),
            signature_cache: SignatureCache::new(SIGNATURE_CACHE_CAPACITY),
            highest_processed_slot: 0,
            last_cleanup_time: now,
        };
        assert(r@.pending =~= Seq::<PendingVoteView>::empty());
        r
    }

    /// A tracker with no votes, whose sweep clock starts now.
    pub fn new() -> (r: Self)
        ensures
            r.wf(),
            r@.pending.len() == 0,
            r@.confirmed.len() == 0,
            r@.processed.len() == 0,
            r@.highest_processed == 0,
    {
        Self::new_at(now_millis())
    }

    fn find_pending(&self, signature: &String) -> (r: Option<usize>)
        requires
            self.wf(),
        ensures
            r matches Some(i) ==> i == pending_index(self@.pending, signature@) && i
                < self@.pending.len() && self@.pending[i as int].signature == signature@,
            r is None ==> pending_index(self@.pending, signature@) == -1,
    {
        let ghost pv = self@.pending;
        proof {
            lemma_pending_index(pv, signature@);
        }
        let mut i: usize = self.pending_votes.len();
        assert(pv.subrange(0, i as int) =~= pv);
        while i > 0
            invariant
                i <= pv.len(),
                pv == self@.pending,
                pending_index(pv, signature@) == pending_index(pv.subrange(0, i as int), signature@),
            decreases i,
        {
            assert(pv.subrange(0, i as int).drop_last() =~= pv.subrange(0, i - 1));
            if *self.pending_votes[i - 1].signature == *signature {
                return Some(i - 1);
            }
            i = i - 1;
        }
        None
    }

    /// Confirms `voted_slot` for `signature` in a block finalized at
    /// `finalized_slot`, stamping the confirmation with `timestamp`.
    pub fn confirm_vote_at(
        &mut self,
        signature: Arc<String>,
        voted_slot: Slot,
        finalized_slot: Slot,
        timestamp: i64,
    ) -> (r: Option<ConfirmedVote>)
        requires
            old(self).wf(),
        ensures
            final(self).wf(),
            (final(self)@, opt_view(r)) == confirm_spec(
                old(self)@,
                signature@,
                voted_slot,
                finalized_slot,
                timestamp,
            ),
    {
        if finalized_slot < voted_slot {
            return None;
        }
        let ghost old_view = self@;
        match self.find_pending(&*signature) {
            Some(i) => {
                if contains_slot(&self.pending_votes[i].voted_slots, voted_slot) {
                    self.pending_votes.remove(i);
                    let latency = finalized_slot - voted_slot;
                    let tvc_credits = calculate_tvc_credits_from_latency(latency);
                    let confirmed = ConfirmedVote {
                        signature,
                        voted_slot,
                        finalized_slot,
                        latency,
                        tvc_credits,
                        timestamp,
                    };
                    self.confirmed_votes.push(confirmed.clone());
                    proof {
                        assert(self@.pending =~= old_view.pending.remove(i as int));
                        lemma_pushed_map(
                            old(self).confirmed_votes@,
                            confirmed,
                            CONFIRMED_CAPACITY as nat,
                            |c: ConfirmedVote| c@,
                        );
                        assert forall|a: int, b: int|
                            0 <= a < self@.pending.len() && 0 <= b < self@.pending.len() && a
                                != b implies self@.pending[a].signature
                            != self@.pending[b].signature by {
                            let a0 = if a < i { a } else { a + 1 };
                            let b0 = if b < i { b } else { b + 1 };
                            assert(self@.pending[a] == old_view.pending[a0]);
                            assert(self@.pending[b] == old_view.pending[b0]);
                        }
                    }
                    Some(confirmed)
                } else {
                    None
                }
            },
            None => {
                let (latency, tvc_credits) = calculate_tvc_credits(voted_slot, finalized_slot);
                Some(
                    ConfirmedVote {
                        signature,
                        voted_slot,
                        finalized_slot,
                        latency,
                        tvc_credits,
                        timestamp,
                    },
                )
            },
        }
    }

    /// Confirms `voted_slot` for `signature` in a block finalized at
    /// `finalized_slot`, stamping the confirmation with the current time.
    pub fn confirm_vote(&mut self, signature: Arc<String>, voted_slot: Slot, finalized_slot: Slot) -> (r:
        Option<ConfirmedVote>)
        requires
            old(self).wf(),
        ensures
            final(self).wf(),
            r matches Some(c) ==> confirm_spec(
                old(self)@,
                signature@,
                voted_slot,
                finalized_slot,
                c.timestamp,
            ) == (final(self)@, Some(c@)),
            r is None ==> confirm_spec(old(self)@, signature@, voted_slot, finalized_slot, 0)
                == (final(self)@, None::<ConfirmedVoteView>),
    {
        self.confirm_vote_at(signature, voted_slot, finalized_slot, now_millis())
    }

    /// Sweeps out pending votes whose transaction slot is at or below the
    /// highest processed slot less the retention window.
    fn cleanup_old_pending(&mut self, now: i64)
        requires
            old(self).wf(),
        ensures
            final(self).wf(),
            final(self)@ == cleanup_spec(old(self)@, now),
    {
        let cutoff = self.highest_processed_slot.saturating_sub(PENDING_RETENTION_SLOTS);
        let ghost pv = self@.pending;
        let ghost n = pv.len() as int;
        let mut i: usize = 0;
        let ghost mut k: int = 0;
        assert(pv.subrange(0, 0) =~= Seq::<PendingVoteView>::empty());
        assert(self@.pending =~= swept(pv.subrange(0, 0), cutoff) + pv.subrange(0, n));
        while i < self.pending_votes.len()
            invariant
                self.wf(),
                0 <= k <= n,
                n == pv.len(),
                self@.pending == swept(pv.subrange(0, k), cutoff) + pv.subrange(k, n),
                i == swept(pv.subrange(0, k), cutoff).len(),
                self@.confirmed == old(self)@.confirmed,
                self@.processed == old(self)@.processed,
                self@.highest_processed == old(self)@.highest_processed,
                self@.last_cleanup_time == old(self)@.last_cleanup_time,
                cutoff == sweep_cutoff(old(self)@.highest_processed),
            decreases n - k,
        {
            let ghost before = self@.pending;
            assert(before[i as int] == pv[k]);
            assert(pv.subrange(0, k + 1).drop_last() =~= pv.subrange(0, k));
            if self.pending_votes[i].transaction_slot > cutoff {
                i = i + 1;
                proof {
                    k = k + 1;
                    assert(self@.pending =~= swept(pv.subrange(0, k), cutoff) + pv.subrange(k, n));
                }
            } else {
                self.pending_votes.remove(i);
                proof {
                    assert forall|a: int, b: int|
                        0 <= a < self@.pending.len() && 0 <= b < self@.pending.len() && a
                            != b implies self@.pending[a].signature
                        != self@.pending[b].signature by {
                        let a0 = if a < i { a } else { a + 1 };
                        let b0 = if b < i { b } else { b + 1 };
                        assert(self@.pending[a] == before[a0]);
                        assert(self@.pending[b] == before[b0]);
                    }
                    assert(self@.pending =~= before.remove(i as int));
                    assert(!survives_sweep(pv[k], cutoff));
                    assert(pv.subrange(0, k + 1).last() == pv[k]);
                    assert(swept(pv.subrange(0, k + 1), cutoff) == swept(pv.subrange(0, k), cutoff));
                    assert(self@.pending =~= swept(pv.subrange(0, k + 1), cutoff) + pv.subrange(k + 1, n));
                    k = k + 1;
                    assert(self@.pending =~= swept(pv.subrange(0, k), cutoff) + pv.subrange(k, n));
                }
            }
        }
        assert(pv.subrange(0, n) =~= pv);
        assert(self@.pending =~= swept(pv, cutoff));
        self.last_cleanup_time = now;
    }

    /// Records a pending vote, replacing any entry with the same signature;
    /// then sweeps the pending votes if the last sweep is at least a minute
    /// before `now`.
    pub fn add_pending_vote_at(&mut self, pending: PendingVote, now: i64)
        requires
            old(self).wf(),
        ensures
            final(self).wf(),
            final(self)@ == add_pending_spec(old(self)@, pending@, now),
    {
        let ghost pv = self@.pending;
        let ghost p = pending@;
        match self.find_pending(&pending.signature) {
            Some(i) => {
                self.pending_votes.set(i, pending);
                proof {
                    assert(self@.pending =~= pv.update(i as int, p));
                    assert forall|a: int, b: int|
                        0 <= a < self@.pending.len() && 0 <= b < self@.pending.len() && a
                            != b implies self@.pending[a].signature
                        != self@.pending[b].signature by {
                        assert(pv[i as int].signature == p.signature);
                    }
                }
            },
            None => {
                self.pending_votes.push(pending);
                proof {
                    lemma_pending_index(pv, p.signature);
                    assert(self@.pending =~= pv.push(p));
                }
            },
        }
        if now as i128 - self.last_cleanup_time as i128 >= CLEANUP_INTERVAL_MS as i128 {
            self.cleanup_old_pending(now);
        }
    }

    /// Records a pending vote as `add_pending_vote_at` does, with the current
    /// time deciding whether a sweep is due.
    pub fn add_pending_vote(&mut self, pending: PendingVote)
        requires
            old(self).wf(),
        ensures
            final(self).wf(),
            exists|now: i64| final(self)@ == add_pending_spec(old(self)@, pending@, now),
    {
        self.add_pending_vote_at(pending, now_millis());
    }

    pub fn has_processed_slot(&self, slot: Slot) -> (r: bool)
        requires
            self.wf(),
        ensures
            r == self@.processed.contains(slot),
    {
        let items = self.processed_slots.iter();
        let mut i: usize = 0;
        while i < items.len()
            invariant
                self.wf(),
                items@.len() == self@.processed.len(),
                forall|k: int| 0 <= k < items@.len() ==> *#[trigger] items@[k] == self@.processed[k],
                i <= items@.len(),
                forall|k: int| 0 <= k < i ==> self@.processed[k] != slot,
            decreases items@.len() - i,
        {
            if *items[i] == slot {
                assert(self@.processed[i as int] == slot);
                return true;
            }
            i = i + 1;
        }
        false
    }

    pub fn mark_slot_processed(&mut self, slot: Slot)
        requires
            old(self).wf(),
        ensures
            final(self).wf(),
            final(self)@ == mark_processed_spec(old(self)@, slot),
    {
        self.processed_slots.push(slot);
        if slot > self.highest_processed_slot {
            self.highest_processed_slot = slot;
        }
    }

    pub fn get_stats(&self) -> (r: VoteTrackerStats)
        requires
            self.wf(),
        ensures
            r.pending_votes == self@.pending.len(),
            r.confirmed_votes == self@.confirmed.len(),
            r.processed_slots == self@.processed.len(),
    {
        VoteTrackerStats {
            pending_votes: self.pending_votes.len(),
            confirmed_votes: self.confirmed_votes.len(),
            processed_slots: self.processed_slots.len(),
        }
    }

    /// The base58 text of a signature given as at least 64 bytes (the first
    /// 64 count).
    pub fn get_or_cache_signature(&mut self, signature_bytes: &[u8]) -> (r: Arc<String>)
        requires
            old(self).wf(),
            signature_bytes@.len() >= 64,
        ensures
            final(self).wf(),
            final(self)@ == old(self)@,
            r@ == base58_of(signature_key(signature_bytes@)),
    {
        self.signature_cache.get_or_insert(signature_bytes)
    }
}

} // verus!
