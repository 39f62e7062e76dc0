use voteperfx::{
    calculate_tvc_credits, calculate_tvc_credits_from_latency, categorize_tvc_performance,
    TvcPerformanceLevel,
};

#[test]
fn credits_within_grace_window_are_maximal() {
    assert_eq!(calculate_tvc_credits_from_latency(0), 16);
    assert_eq!(calculate_tvc_credits_from_latency(1), 16);
    assert_eq!(calculate_tvc_credits_from_latency(2), 16);
}

#[test]
fn credits_drop_one_per_slot_after_grace() {
    assert_eq!(calculate_tvc_credits_from_latency(3), 15);
    assert_eq!(calculate_tvc_credits_from_latency(5), 13);
    assert_eq!(calculate_tvc_credits_from_latency(16), 2);
}

#[test]
fn credits_never_fall_below_one() {
    assert_eq!(calculate_tvc_credits_from_latency(17), 1);
    assert_eq!(calculate_tvc_credits_from_latency(18), 1);
    assert_eq!(calculate_tvc_credits_from_latency(1000), 1);
    assert_eq!(calculate_tvc_credits_from_latency(u64::MAX), 1);
}

#[test]
fn credits_from_slots_saturate_latency() {
    assert_eq!(calculate_tvc_credits(100, 104), (4, 14));
    assert_eq!(calculate_tvc_credits(100, 100), (0, 16));
    assert_eq!(calculate_tvc_credits(50, 40), (0, 16));
}

#[test]
fn tiers_follow_credit_ranges() {
    assert_eq!(categorize_tvc_performance(16), TvcPerformanceLevel::Optimal);
    assert_eq!(categorize_tvc_performance(15), TvcPerformanceLevel::Good);
    assert_eq!(categorize_tvc_performance(12), TvcPerformanceLevel::Good);
    assert_eq!(categorize_tvc_performance(11), TvcPerformanceLevel::Fair);
    assert_eq!(categorize_tvc_performance(8), TvcPerformanceLevel::Fair);
    assert_eq!(categorize_tvc_performance(7), TvcPerformanceLevel::Poor);
    assert_eq!(categorize_tvc_performance(4), TvcPerformanceLevel::Poor);
    assert_eq!(categorize_tvc_performance(3), TvcPerformanceLevel::Critical);
    assert_eq!(categorize_tvc_performance(0), TvcPerformanceLevel::Critical);
    assert_eq!(categorize_tvc_performance(17), TvcPerformanceLevel::Critical);
}

#[test]
fn tier_names() {
    assert_eq!(TvcPerformanceLevel::Optimal.as_str(), "optimal");
    assert_eq!(TvcPerformanceLevel::Good.as_str(), "good");
    assert_eq!(TvcPerformanceLevel::Fair.as_str(), "fair");
    assert_eq!(TvcPerformanceLevel::Poor.as_str(), "poor");
    assert_eq!(TvcPerformanceLevel::Critical.as_str(), "critical");
}
