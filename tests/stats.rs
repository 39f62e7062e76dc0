use std::sync::Arc;
use voteperfx::{ConfirmedVote, PerformanceFilterConfig, PerformanceStats, PerformanceStatus};

fn vote(voted: u64, finalized: u64, latency: u64, credits: u64) -> ConfirmedVote {
    ConfirmedVote {
        signature: Arc::new(format!("sig{}", voted)),
        voted_slot: voted,
        finalized_slot: finalized,
        latency,
        tvc_credits: credits,
        timestamp: 0,
    }
}

#[test]
fn counters_track_tiers_and_latency() {
    let mut s = PerformanceStats::new_at(5);
    assert_eq!(s.session_start(), 5);
    assert_eq!(s.get_performance_status(), PerformanceStatus::Optimal);
    s.add_confirmed_vote(vote(10, 11, 1, 16));
    s.add_confirmed_vote(vote(20, 24, 4, 14));
    s.add_confirmed_vote(vote(30, 40, 10, 8));
    assert_eq!(s.total_transactions(), 3);
    assert_eq!(s.total_tvc_earned(), 38);
    assert_eq!(s.total_tvc_possible(), 48);
    assert_eq!(s.optimal_votes(), 1);
    assert_eq!(s.good_votes(), 1);
    assert_eq!(s.poor_votes(), 1);
    assert_eq!(s.low_latency_votes(), 1);
    assert_eq!(s.total_latency_sum(), 15);
    assert_eq!(s.current_finalized_slot(), 40);
    assert_eq!(s.calculate_missed_credits(), 10);
    assert_eq!(s.latency_window_totals(), (15, 3));
    assert_eq!(s.session_poor_votes().len(), 2);
    assert_eq!(s.last_confirmed_vote().unwrap().voted_slot, 30);
    assert_eq!(s.get_performance_status(), PerformanceStatus::Poor);
    assert_eq!(s.get_performance_status().as_str(), "poor");
}

#[test]
fn status_thresholds() {
    let mut s = PerformanceStats::new_at(0);
    for i in 0..19u64 {
        s.add_confirmed_vote(vote(i, i + 1, 1, 16));
    }
    s.add_confirmed_vote(vote(100, 117, 17, 1));
    // 305 of 320 credits: 95.3%
    assert_eq!(s.get_performance_status(), PerformanceStatus::Optimal);
    let mut g = PerformanceStats::new_at(0);
    for i in 0..9u64 {
        g.add_confirmed_vote(vote(i, i + 1, 1, 16));
    }
    g.add_confirmed_vote(vote(100, 116, 16, 2));
    // 146 of 160 credits: 91.25%
    assert_eq!(g.get_performance_status(), PerformanceStatus::Good);
    assert_eq!(g.get_performance_status().as_str(), "good");
}

#[test]
fn windows_keep_most_recent() {
    let mut s = PerformanceStats::new_at(0);
    for i in 0..25u64 {
        s.add_confirmed_vote(vote(i, i + 3 + i, 3 + i, 15));
    }
    let recent = s.recent_confirmed_votes();
    assert_eq!(recent.len(), 20);
    assert_eq!(recent[0].voted_slot, 5);
    assert_eq!(recent[19].voted_slot, 24);
    let expected: u128 = (5..25u128).map(|i| 3 + i).sum();
    assert_eq!(s.latency_window_totals(), (expected, 20));
    for i in 0..60u64 {
        s.add_confirmed_vote(vote(1000 + i, 1004 + i, 4, 14));
    }
    let poor = s.session_poor_votes();
    assert_eq!(poor.len(), 50);
    assert_eq!(poor[49].voted_slot, 1059);
    assert_eq!(poor[0].voted_slot, 1010);
}

#[test]
fn audit_record_only_when_filter_admits() {
    let mut s = PerformanceStats::new_at(0);
    let f = PerformanceFilterConfig::default();
    assert!(s.add_confirmed_vote_with_config_at(vote(1, 5, 4, 14), "acct", &f, 9).is_none());
    let e = s.add_confirmed_vote_with_config_at(vote(2, 12, 10, 8), "acct", &f, 9);
    assert!(e.is_none());
    let e = s
        .add_confirmed_vote_with_config_at(vote(3, 15, 12, 6), "acct", &f, 9)
        .unwrap();
    assert_eq!(e.timestamp, 9);
    assert_eq!(e.landed_slot, 15);
    assert_eq!(e.voted_slot, 3);
    assert_eq!(e.latency, 12);
    assert_eq!(e.tvc_credits, 6);
    assert_eq!(e.transaction_signature, "sig3");
    assert_eq!(e.vote_account, "acct");
    assert_eq!(e.total_tvc_credits, 6);
    assert_eq!(e.total_voted_slots, 1);
    assert_eq!(s.total_transactions(), 3);
    let mut off = f.clone();
    off.enabled = false;
    assert!(s.add_confirmed_vote_with_config(vote(4, 30, 26, 1), "acct", &off).is_none());
    assert_eq!(s.total_transactions(), 4);
}

#[test]
fn recording_a_batch_returns_admitted_records_in_order() {
    let mut s = PerformanceStats::new();
    assert_eq!(s.optimal_votes(), 0);
    assert_eq!(s.good_votes(), 0);
    let f = PerformanceFilterConfig::default();
    let votes = vec![vote(1, 20, 19, 1), vote(2, 6, 4, 14), vote(3, 13, 10, 6), vote(4, 5, 1, 16)];
    let events = s.record_confirmed_votes_at(&votes, "acct", &f, 77);
    assert_eq!(events.len(), 2);
    assert_eq!(events[0].voted_slot, 1);
    assert_eq!(events[1].voted_slot, 3);
    assert!(events.iter().all(|e| e.timestamp == 77 && e.vote_account == "acct"));
    assert_eq!(s.total_transactions(), 4);
    assert_eq!(s.optimal_votes(), 1);
    assert_eq!(s.good_votes(), 1);
    assert_eq!(s.poor_votes(), 2);
    let none = s.record_confirmed_votes(&Vec::new(), "acct", &f);
    assert!(none.is_empty());
    assert_eq!(s.total_transactions(), 4);
}
