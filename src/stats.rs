//! The performance aggregator: session counters and bounded recent-history
//! windows over confirmed votes.
use vstd::prelude::*;
use crate::batch::seq_sum;
use crate::clock::now_millis;
use crate::config::{filter_admits, PerformanceFilterConfig};
use crate::credits::{categorize_tvc_performance, Slot};
use crate::ring::{lemma_pushed_map, pushed, CircularBuffer};
use crate::vote::{ConfirmedVote, ConfirmedVoteView};

verus! {

/// Most recent confirmations kept.
pub const RECENT_VOTES_CAPACITY: usize = 20;

/// Most recent below-maximum confirmations kept.
pub const POOR_VOTES_CAPACITY: usize = 50;

/// Latencies in the moving-average window.
pub const LATENCY_WINDOW_CAPACITY: usize = 20;

/// `a + b`, capped at `u64::MAX`.
pub open spec fn sat_add(a: u64, b: int) -> u64 {
    if a + b > u64::MAX {
        u64::MAX
    } else {
        (a + b) as u64
    }
}

/// The session's standing, from its credit efficiency.
#[derive(Debug, Clone, Copy, PartialEq, Eq, Structural)]
pub enum PerformanceStatus {
    Optimal,
    Good,
    Poor,
}

impl PerformanceStatus {
    pub fn as_str(&self) -> (s: &'static str)
        ensures
            s@ == match *self {
                PerformanceStatus::Optimal => "optimal"@,
                PerformanceStatus::Good => "good"@,
                PerformanceStatus::Poor => "poor"@,
            },
    {
        match self {
            PerformanceStatus::Optimal => "optimal",
            PerformanceStatus::Good => "good",
            PerformanceStatus::Poor => "poor",
        }
    }
}

/// An audit record for a confirmed vote that the filter admitted.
#[derive(Debug, Clone)]
pub struct PoorPerformanceEvent {
    /// Milliseconds since the Unix epoch when the record was made.
    pub timestamp: i64,
    pub landed_slot: Slot,
    pub voted_slot: Slot,
    pub latency: u64,
    pub tvc_credits: u64,
    pub transaction_signature: String,
    pub vote_account: String,
    pub total_tvc_credits: u64,
    pub total_voted_slots: usize,
}

/// The aggregator's state, as the contracts see it.
pub struct StatsView {
    pub session_start: i64,
    pub total_transactions: u64,
    pub total_tvc_earned: u64,
    pub total_tvc_possible: u64,
    pub optimal_votes: u64,
    pub good_votes: u64,
    pub poor_votes: u64,
    pub low_latency_votes: u64,
    pub total_latency_sum: u64,
    pub current_finalized_slot: u64,
    pub recent_confirmed_votes: Seq<ConfirmedVoteView>,
    pub session_poor_votes: Seq<ConfirmedVoteView>,
    pub latency_window: Seq<u64>,
    pub last_confirmed_vote: Option<ConfirmedVoteView>,
}

/// Recording one confirmed vote.
pub open spec fn record_spec(s: StatsView, c: ConfirmedVoteView) -> StatsView {
    StatsView {
        session_start: s.session_start,
        total_transactions: sat_add(s.total_transactions, 1),
        total_tvc_earned: sat_add(s.total_tvc_earned, c.tvc_credits as int),
        total_tvc_possible: sat_add(s.total_tvc_possible, 16),
        optimal_votes: if c.tvc_credits == 16 {
            sat_add(s.optimal_votes, 1)
        } else {
            s.optimal_votes
        },
        good_votes: if 12 <= c.tvc_credits <= 15 {
            sat_add(s.good_votes, 1)
        } else {
            s.good_votes
        },
        poor_votes: if c.tvc_credits != 16 && !(12 <= c.tvc_credits <= 15) {
            sat_add(s.poor_votes, 1)
        } else {
            s.poor_votes
        },
        low_latency_votes: if c.latency <= 2 {
            sat_add(s.low_latency_votes, 1)
        } else {
            s.low_latency_votes
        },
        total_latency_sum: sat_add(s.total_latency_sum, c.latency as int),
        current_finalized_slot: c.finalized_slot,
        recent_confirmed_votes: pushed(s.recent_confirmed_votes, c, RECENT_VOTES_CAPACITY as nat),
        session_poor_votes: if c.tvc_credits < 16 {
            pushed(s.session_poor_votes, c, POOR_VOTES_CAPACITY as nat)
        } else {
            s.session_poor_votes
        },
        latency_window: pushed(s.latency_window, c.latency, LATENCY_WINDOW_CAPACITY as nat),
        last_confirmed_vote: Some(c),
    }
}

/// Recording each of `votes`, in order.
pub open spec fn record_all_spec(s: StatsView, votes: Seq<ConfirmedVoteView>) -> StatsView
    decreases votes.len(),
{
    if votes.len() == 0 {
        s
    } else {
        record_spec(record_all_spec(s, votes.drop_last()), votes.last())
    }
}

/// The votes the filter admits, in order.
pub open spec fn admitted_votes(f: PerformanceFilterConfig, votes: Seq<ConfirmedVoteView>) -> Seq<
    ConfirmedVoteView,
>
    decreases votes.len(),
{
    if votes.len() == 0 {
        votes
    } else if filter_admits(
        f,
        votes.last().latency,
        votes.last().tvc_credits,
        crate::credits::level_of_credits(votes.last().tvc_credits as int),
    ) {
        admitted_votes(f, votes.drop_last()).push(votes.last())
    } else {
        admitted_votes(f, votes.drop_last())
    }
}

/// The audit record of a confirmed vote.
pub open spec fn is_record_of(
    e: PoorPerformanceEvent,
    c: ConfirmedVoteView,
    vote_account: Seq<char>,
    now: i64,
) -> bool {
    &&& e.timestamp == now
    &&& e.landed_slot == c.finalized_slot
    &&& e.voted_slot == c.voted_slot
    &&& e.latency == c.latency
    &&& e.tvc_credits == c.tvc_credits
    &&& e.transaction_signature@ == c.signature
    &&& e.vote_account@ == vote_account
    &&& e.total_tvc_credits == c.tvc_credits
    &&& e.total_voted_slots == 1
}

/// The status for the given credit totals: efficiency (earned over possible)
/// of at least 95% is optimal, at least 85% good, anything less poor; with
/// nothing possible yet the efficiency counts as 100%.
pub open spec fn status_of(earned: u64, possible: u64) -> PerformanceStatus {
    if possible == 0 || earned * 100 >= possible * 95 {
        PerformanceStatus::Optimal
    } else if earned * 100 >= possible * 85 {
        PerformanceStatus::Good
    } else {
        PerformanceStatus::Poor
    }
}

/// A ring of recent confirmed votes.
pub type CircularVoteBuffer = CircularBuffer<ConfirmedVote>;

/// Session-wide performance statistics.
#[derive(Debug)]
pub struct PerformanceStats {
    session_start: i64,
    total_transactions: u64,
    total_tvc_earned: u64,
    total_tvc_possible: u64,
    optimal_votes: u64,
    good_votes: u64,
    poor_votes: u64,
    low_latency_votes: u64,
    total_latency_sum: u64,
    current_finalized_slot: u64,
    recent_confirmed_votes: CircularVoteBuffer,
    session_poor_votes: CircularVoteBuffer,
    avg_latency_window: CircularBuffer<u64>,
    avg_latency_window_sum: u128,
    last_confirmed_vote: Option<ConfirmedVote>,
}

impl View for PerformanceStats {
    type V = StatsView;

    closed spec fn view(&self) -> StatsView {
        StatsView {
            session_start: self.session_start,
            total_transactions: self.total_transactions,
            total_tvc_earned: self.total_tvc_earned,
            total_tvc_possible: self.total_tvc_possible,
            optimal_votes: self.optimal_votes,
            good_votes: self.good_votes,
            poor_votes: self.poor_votes,
            low_latency_votes: self.low_latency_votes,
            total_latency_sum: self.total_latency_sum,
            current_finalized_slot: self.current_finalized_slot,
            recent_confirmed_votes: self.recent_confirmed_votes@.map_values(|c: ConfirmedVote| c@),
            session_poor_votes: self.session_poor_votes@.map_values(|c: ConfirmedVote| c@),
            latency_window: self.avg_latency_window@,
            last_confirmed_vote: match self.last_confirmed_vote {
                Some(c) => Some(c@),
                None => None,
            },
        }
    }
}

proof fn lemma_sum_push(items: Seq<u64>, x: u64)
    ensures
        seq_sum(items.push(x)) == seq_sum(items) + x,
{
    assert(items.push(x).drop_last() =~= items);
}

proof fn lemma_sum_drop_first(items: Seq<u64>)
    requires
        items.len() > 0,
    ensures
        seq_sum(items) == items[0] + seq_sum(items.drop_first()),
    decreases items.len(),
{
    if items.len() > 1 {
        lemma_sum_drop_first(items.drop_last());
        assert(items.drop_last().drop_first() =~= items.drop_first().drop_last());
    } else {
        assert(items.drop_first() =~= Seq::<u64>::empty());
        assert(items.drop_last() =~= Seq::<u64>::empty());
    }
}

proof fn lemma_sum_bound(items: Seq<u64>)
    ensures
        0 <= seq_sum(items) <= items.len() * u64::MAX,
    decreases items.len(),
{
    if items.len() > 0 {
        lemma_sum_bound(items.drop_last());
    }
}

fn sat_increment(a: u64, b: u64) -> (r: u64)
    ensures
        r == sat_add(a, b as int),
{
    a.saturating_add(b)
}

impl PerformanceStats {
    pub closed spec fn wf(&self) -> bool {
        &&& self.recent_confirmed_votes.wf()
        &&& self.recent_confirmed_votes.spec_capacity() == RECENT_VOTES_CAPACITY
        &&& self.session_poor_votes.wf()
        &&& self.session_poor_votes.spec_capacity() == POOR_VOTES_CAPACITY
        &&& self.avg_latency_window.wf()
        &&& self.avg_latency_window.spec_capacity() == LATENCY_WINDOW_CAPACITY
        &&& self.avg_latency_window_sum == seq_sum(self.avg_latency_window@)
    }

    /// The windows of a well-formed aggregator stay within their capacities.
    pub proof fn lemma_window_bounds(&self)
        requires
            self.wf(),
        ensures
            self@.recent_confirmed_votes.len() <= RECENT_VOTES_CAPACITY,
            self@.session_poor_votes.len() <= POOR_VOTES_CAPACITY,
            self@.latency_window.len() <= LATENCY_WINDOW_CAPACITY,
    {
        self.recent_confirmed_votes.lemma_len_bound();
        self.session_poor_votes.lemma_len_bound();
        self.avg_latency_window.lemma_len_bound();
    }

    /// Empty statistics for a session that started at `session_start`
    /// (milliseconds since the Unix epoch).
    pub fn new_at(session_start: i64) -> (r: Self)
        ensures
            r.wf(),
            r@.session_start == session_start,
            r@.total_transactions == 0,
            r@.total_tvc_earned == 0,
            r@.total_tvc_possible == 0,
            r@.optimal_votes == 0,
            r@.good_votes == 0,
            r@.poor_votes == 0,
            r@.low_latency_votes == 0,
            r@.total_latency_sum == 0,
            r@.current_finalized_slot == 0,
            r@.recent_confirmed_votes.len() == 0,
            r@.session_poor_votes.len() == 0,
            r@.latency_window.len() == 0,
            r@.last_confirmed_vote is None,
    {
        let r = PerformanceStats {
            session_start,
            total_transactions: 0,
            total_tvc_earned: 0,
            total_tvc_possible: 0,
            optimal_votes: 0,
            good_votes: 0,
            poor_votes: 0,
            low_latency_votes: 0,
            total_latency_sum: 0,
            current_finalized_slot: 0,
            recent_confirmed_votes: CircularBuffer::new(RECENT_VOTES_CAPACITY),
            session_poor_votes: CircularBuffer::new(POOR_VOTES_CAPACITY),
            avg_latency_window: CircularBuffer::new(LATENCY_WINDOW_CAPACITY),
            avg_latency_window_sum: 0,
            last_confirmed_vote: None,
        };
        r
    }

    /// Empty statistics for a session starting now.
    pub fn new() -> (r: Self)
        ensures
            r.wf(),
            r@.total_transactions == 0,
            r@.total_tvc_earned == 0,
            r@.total_tvc_possible == 0,
            r@.optimal_votes == 0,
            r@.good_votes == 0,
            r@.poor_votes == 0,
            r@.low_latency_votes == 0,
            r@.total_latency_sum == 0,
            r@.current_finalized_slot == 0,
            r@.recent_confirmed_votes.len() == 0,
            r@.session_poor_votes.len() == 0,
            r@.latency_window.len() == 0,
            r@.last_confirmed_vote is None,
    {
        Self::new_at(now_millis())
    }

    /// Records a confirmed vote in every counter and window.
    pub fn add_confirmed_vote(&mut self, confirmed: ConfirmedVote)
        requires
            old(self).wf(),
        ensures
            final(self).wf(),
            final(self)@ == record_spec(old(self)@, confirmed@),
    {
        let ghost c = confirmed@;
        let tvc = confirmed.tvc_credits;
        let latency = confirmed.latency;
        self.total_transactions = sat_increment(self.total_transactions, 1);
        self.total_tvc_earned = sat_increment(self.total_tvc_earned, tvc);
        self.total_tvc_possible = sat_increment(self.total_tvc_possible, 16);
        self.current_finalized_slot = confirmed.finalized_slot;
        self.total_latency_sum = sat_increment(self.total_latency_sum, latency);
        if tvc == 16 {
            self.optimal_votes = sat_increment(self.optimal_votes, 1);
        } else if 12 <= tvc && tvc <= 15 {
            self.good_votes = sat_increment(self.good_votes, 1);
        } else {
            self.poor_votes = sat_increment(self.poor_votes, 1);
        }
        if latency <= 2 {
            self.low_latency_votes = sat_increment(self.low_latency_votes, 1);
        }
        let ghost recent0 = self.recent_confirmed_votes@;
        self.recent_confirmed_votes.push(confirmed.clone());
        proof {
            lemma_pushed_map(recent0, confirmed, RECENT_VOTES_CAPACITY as nat, |c: ConfirmedVote| c@);
        }
        let ghost window0 = self.avg_latency_window@;
        let window_len = self.avg_latency_window.len();
        if window_len == LATENCY_WINDOW_CAPACITY {
            let oldest = *self.avg_latency_window.get(0);
            proof {
                assert(window0.len() == 20);
                assert(oldest == window0[0]);
                lemma_sum_drop_first(window0);
                lemma_sum_bound(window0.drop_first());
                assert(seq_sum(window0.drop_first()) <= 19 * u64::MAX);
                lemma_sum_push(window0.drop_first(), latency);
                assert(window0.push(latency).drop_first() =~= window0.drop_first().push(latency));
                assert(pushed(window0, latency, 20) == window0.drop_first().push(latency));
            }
            let rest = self.avg_latency_window_sum - oldest as u128;
            assert(rest == seq_sum(window0.drop_first()));
            self.avg_latency_window_sum = rest + latency as u128;
        } else {
            proof {
                assert(window0.len() < 20);
                lemma_sum_bound(window0);
                assert(seq_sum(window0) <= 20 * u64::MAX) by (nonlinear_arith)
                    requires seq_sum(window0) <= window0.len() * u64::MAX, window0.len() < 20;
                lemma_sum_push(window0, latency);
            }
            self.avg_latency_window_sum = self.avg_latency_window_sum + latency as u128;
        }
        self.avg_latency_window.push(latency);
        if tvc < 16 {
            let ghost poor0 = self.session_poor_votes@;
            self.session_poor_votes.push(confirmed.clone());
            proof {
                lemma_pushed_map(poor0, confirmed, POOR_VOTES_CAPACITY as nat, |c: ConfirmedVote| c@);
            }
        }
        self.last_confirmed_vote = Some(confirmed);
    }

    /// Records a confirmed vote and, when the filter is enabled and admits
    /// it, returns the audit record to persist, stamped with `now`.
    pub fn add_confirmed_vote_with_config_at(
        &mut self,
        confirmed: ConfirmedVote,
        vote_account: &str,
        filter_config: &PerformanceFilterConfig,
        now: i64,
    ) -> (r: Option<PoorPerformanceEvent>)
        requires
            old(self).wf(),
        ensures
            final(self).wf(),
            final(self)@ == record_spec(old(self)@, confirmed@),
            r is Some <==> filter_admits(
                *filter_config,
                confirmed.latency,
                confirmed.tvc_credits,
                crate::credits::level_of_credits(confirmed.tvc_credits as int),
            ),
            r matches Some(e) ==> {
                &&& e.timestamp == now
                &&& e.landed_slot == confirmed.finalized_slot
                &&& e.voted_slot == confirmed.voted_slot
                &&& e.latency == confirmed.latency
                &&& e.tvc_credits == confirmed.tvc_credits
                &&& e.transaction_signature@ == confirmed.signature@
                &&& e.vote_account@ == vote_account@
                &&& e.total_tvc_credits == confirmed.tvc_credits
                &&& e.total_voted_slots == 1
            },
    {
        let latency = confirmed.latency;
        let tvc = confirmed.tvc_credits;
        let voted_slot = confirmed.voted_slot;
        let landed_slot = confirmed.finalized_slot;
        let signature = String::from_str(confirmed.signature.as_str());
        self.add_confirmed_vote(confirmed);
        if filter_config.enabled {
            let level = categorize_tvc_performance(tvc);
            if filter_config.should_save_vote(latency, tvc, level) {
                return Some(
                    PoorPerformanceEvent {
                        timestamp: now,
                        landed_slot,
                        voted_slot,
                        latency,
                        tvc_credits: tvc,
                        transaction_signature: signature,
                        vote_account: String::from_str(vote_account),
                        total_tvc_credits: tvc,
                        total_voted_slots: 1,
                    },
                );
            }
        }
        None
    }

    /// Records a confirmed vote as `add_confirmed_vote_with_config_at` does,
    /// stamping any audit record with the current time.
    pub fn add_confirmed_vote_with_config(
        &mut self,
        confirmed: ConfirmedVote,
        vote_account: &str,
        filter_config: &PerformanceFilterConfig,
    ) -> (r: Option<PoorPerformanceEvent>)
        requires
            old(self).wf(),
        ensures
            final(self).wf(),
            final(self)@ == record_spec(old(self)@, confirmed@),
            r is Some <==> filter_admits(
                *filter_config,
                confirmed.latency,
                confirmed.tvc_credits,
                crate::credits::level_of_credits(confirmed.tvc_credits as int),
            ),
            r matches Some(e) ==> {
                &&& e.landed_slot == confirmed.finalized_slot
                &&& e.voted_slot == confirmed.voted_slot
                &&& e.latency == confirmed.latency
                &&& e.tvc_credits == confirmed.tvc_credits
                &&& e.transaction_signature@ == confirmed.signature@
                &&& e.vote_account@ == vote_account@
                &&& e.total_tvc_credits == confirmed.tvc_credits
                &&& e.total_voted_slots == 1
            },
    {
        self.add_confirmed_vote_with_config_at(confirmed, vote_account, filter_config, now_millis())
    }

    /// Records each confirmed vote in order, returning the audit records of
    /// those the filter admits, stamped with `now`.
    pub fn record_confirmed_votes_at(
        &mut self,
        votes: &Vec<ConfirmedVote>,
        vote_account: &str,
        filter_config: &PerformanceFilterConfig,
        now: i64,
    ) -> (r: Vec<PoorPerformanceEvent>)
        requires
            old(self).wf(),
        ensures
            final(self).wf(),
            final(self)@ == record_all_spec(old(self)@, votes@.map_values(|c: ConfirmedVote| c@)),
            r@.len() == admitted_votes(
                *filter_config,
                votes@.map_values(|c: ConfirmedVote| c@),
            ).len(),
            forall|i: int|
                0 <= i < r@.len() ==> is_record_of(
                    #[trigger] r@[i],
                    admitted_votes(*filter_config, votes@.map_values(|c: ConfirmedVote| c@))[i],
                    vote_account@,
                    now,
                ),
    {
        let ghost views = votes@.map_values(|c: ConfirmedVote| c@);
        let mut events: Vec<PoorPerformanceEvent> = Vec::new();
        let mut i: usize = 0;
        assert(views.subrange(0, 0) =~= Seq::<ConfirmedVoteView>::empty());
        while i < votes.len()
            invariant
                self.wf(),
                i <= votes@.len(),
                views == votes@.map_values(|c: ConfirmedVote| c@),
                self@ == record_all_spec(old(self)@, views.subrange(0, i as int)),
                events@.len() == admitted_votes(*filter_config, views.subrange(0, i as int)).len(),
                forall|k: int|
                    0 <= k < events@.len() ==> is_record_of(
                        #[trigger] events@[k],
                        admitted_votes(*filter_config, views.subrange(0, i as int))[k],
                        vote_account@,
                        now,
                    ),
            decreases votes@.len() - i,
        {
            let ghost prefix = views.subrange(0, i as int);
            assert(views.subrange(0, i + 1).drop_last() =~= prefix);
            assert(views.subrange(0, i + 1).last() == votes@[i as int]@);
            let vote = votes[i].clone();
            let record = self.add_confirmed_vote_with_config_at(vote, vote_account, filter_config, now);
            match record {
                Some(e) => {
                    let ghost before = events@;
                    events.push(e);
                    assert forall|k: int| 0 <= k < events@.len() implies is_record_of(
                        #[trigger] events@[k],
                        admitted_votes(*filter_config, views.subrange(0, i + 1))[k],
                        vote_account@,
                        now,
                    ) by {
                        if k < before.len() {
                            assert(events@[k] == before[k]);
                        }
                    }
                },
                None => {},
            }
            i = i + 1;
        }
        assert(views.subrange(0, i as int) =~= views);
        events
    }

    /// Records each confirmed vote as `record_confirmed_votes_at` does,
    /// stamping audit records with the current time.
    pub fn record_confirmed_votes(
        &mut self,
        votes: &Vec<ConfirmedVote>,
        vote_account: &str,
        filter_config: &PerformanceFilterConfig,
    ) -> (r: Vec<PoorPerformanceEvent>)
        requires
            old(self).wf(),
        ensures
            final(self).wf(),
            final(self)@ == record_all_spec(old(self)@, votes@.map_values(|c: ConfirmedVote| c@)),
            r@.len() == admitted_votes(
                *filter_config,
                votes@.map_values(|c: ConfirmedVote| c@),
            ).len(),
    {
        self.record_confirmed_votes_at(votes, vote_account, filter_config, now_millis())
    }

    /// Credits that could have been earned but were not.
    pub fn calculate_missed_credits(&self) -> (r: u64)
        ensures
            r == if self@.total_tvc_possible >= self@.total_tvc_earned {
                self@.total_tvc_possible - self@.total_tvc_earned
            } else {
                0
            },
    {
        self.total_tvc_possible.saturating_sub(self.total_tvc_earned)
    }

    /// The session's status from its credit efficiency.
    pub fn get_performance_status(&self) -> (r: PerformanceStatus)
        ensures
            r == status_of(self@.total_tvc_earned, self@.total_tvc_possible),
    {
        let earned = self.total_tvc_earned as u128;
        let possible = self.total_tvc_possible as u128;
        if possible == 0 || earned * 100 >= possible * 95 {
            PerformanceStatus::Optimal
        } else if earned * 100 >= possible * 85 {
            PerformanceStatus::Good
        } else {
            PerformanceStatus::Poor
        }
    }

    pub fn session_start(&self) -> (r: i64)
        ensures
            r == self@.session_start,
    {
        self.session_start
    }

    pub fn total_transactions(&self) -> (r: u64)
        ensures
            r == self@.total_transactions,
    {
        self.total_transactions
    }

    pub fn total_tvc_earned(&self) -> (r: u64)
        ensures
            r == self@.total_tvc_earned,
    {
        self.total_tvc_earned
    }

    pub fn total_tvc_possible(&self) -> (r: u64)
        ensures
            r == self@.total_tvc_possible,
    {
        self.total_tvc_possible
    }

    pub fn optimal_votes(&self) -> (r: u64)
        ensures
            r == self@.optimal_votes,
    {
        self.optimal_votes
    }

    pub fn good_votes(&self) -> (r: u64)
        ensures
            r == self@.good_votes,
    {
        self.good_votes
    }

    pub fn poor_votes(&self) -> (r: u64)
        ensures
            r == self@.poor_votes,
    {
        self.poor_votes
    }

    pub fn low_latency_votes(&self) -> (r: u64)
        ensures
            r == self@.low_latency_votes,
    {
        self.low_latency_votes
    }

    pub fn total_latency_sum(&self) -> (r: u64)
        ensures
            r == self@.total_latency_sum,
    {
        self.total_latency_sum
    }

    pub fn current_finalized_slot(&self) -> (r: u64)
        ensures
            r == self@.current_finalized_slot,
    {
        self.current_finalized_slot
    }

    /// Sum and length of the latency window, for its moving average.
    pub fn latency_window_totals(&self) -> (r: (u128, usize))
        requires
            self.wf(),
        ensures
            r.0 == seq_sum(self@.latency_window),
            r.1 == self@.latency_window.len(),
    {
        (self.avg_latency_window_sum, self.avg_latency_window.len())
    }

    /// The most recent confirmations, oldest first.
    pub fn recent_confirmed_votes(&self) -> (r: Vec<&ConfirmedVote>)
        requires
            self.wf(),
        ensures
            r@.len() == self@.recent_confirmed_votes.len(),
            forall|i: int|
                0 <= i < r@.len() ==> (*#[trigger] r@[i])@ == self@.recent_confirmed_votes[i],
    {
        self.recent_confirmed_votes.iter()
    }

    /// The most recent below-maximum confirmations, oldest first.
    pub fn session_poor_votes(&self) -> (r: Vec<&ConfirmedVote>)
        requires
            self.wf(),
        ensures
            r@.len() == self@.session_poor_votes.len(),
            forall|i: int| 0 <= i < r@.len() ==> (*#[trigger] r@[i])@ == self@.session_poor_votes[i],
    {
        self.session_poor_votes.iter()
    }

    pub fn last_confirmed_vote(&self) -> (r: Option<&ConfirmedVote>)
        ensures
            r matches Some(c) ==> self@.last_confirmed_vote == Some(c@),
            r is None <==> self@.last_confirmed_vote is None,
    {
        match &self.last_confirmed_vote {
            Some(c) => Some(c),
            None => None,
        }
    }
}

} // verus!
