use voteperfx::{Config, PerformanceFilterConfig, TvcPerformanceLevel, VoteMonitorError};

fn bounds_only(min_latency: Option<u64>, max_tvc: Option<u64>) -> PerformanceFilterConfig {
    PerformanceFilterConfig {
        enabled: true,
        min_latency_threshold: min_latency,
        max_latency_threshold: None,
        min_tvc_threshold: None,
        max_tvc_threshold: max_tvc,
        performance_levels: vec![],
    }
}

fn valid_config() -> Config {
    Config {
        grpc_url: "http://localhost:10000".to_string(),
        vote_account: "Vote111111111111111111111111111111111111111".to_string(),
        performance_logging: PerformanceFilterConfig::default(),
    }
}

#[test]
fn filter_excludes_zero_latency() {
    let f = bounds_only(Some(1), Some(15));
    assert!(!f.should_save_vote(0, 13, TvcPerformanceLevel::Good));
}

#[test]
fn filter_includes_latency_three_credits_thirteen() {
    let f = bounds_only(Some(1), Some(15));
    assert!(f.should_save_vote(3, 13, TvcPerformanceLevel::Good));
}

#[test]
fn filter_excludes_full_credits_regardless_of_latency() {
    let f = bounds_only(Some(1), Some(15));
    assert!(!f.should_save_vote(1, 16, TvcPerformanceLevel::Optimal));
    assert!(!f.should_save_vote(500, 16, TvcPerformanceLevel::Optimal));
}

#[test]
fn filter_disabled_saves_nothing() {
    let mut f = bounds_only(None, None);
    f.enabled = false;
    assert!(!f.should_save_vote(10, 8, TvcPerformanceLevel::Fair));
}

#[test]
fn filter_levels_compare_ignoring_case() {
    let mut f = bounds_only(None, None);
    f.performance_levels = vec!["POOR".to_string(), "Critical".to_string()];
    assert!(f.should_save_vote(10, 5, TvcPerformanceLevel::Poor));
    assert!(f.should_save_vote(20, 1, TvcPerformanceLevel::Critical));
    assert!(!f.should_save_vote(4, 14, TvcPerformanceLevel::Good));
}

#[test]
fn filter_all_bounds_inclusive() {
    let f = PerformanceFilterConfig {
        enabled: true,
        min_latency_threshold: Some(3),
        max_latency_threshold: Some(6),
        min_tvc_threshold: Some(12),
        max_tvc_threshold: Some(15),
        performance_levels: vec![],
    };
    assert!(f.should_save_vote(3, 15, TvcPerformanceLevel::Good));
    assert!(f.should_save_vote(6, 12, TvcPerformanceLevel::Good));
    assert!(!f.should_save_vote(7, 11, TvcPerformanceLevel::Fair));
    assert!(!f.should_save_vote(2, 16, TvcPerformanceLevel::Optimal));
    assert!(!f.should_save_vote(4, 11, TvcPerformanceLevel::Fair));
}

#[test]
fn default_filter_settings() {
    let f = PerformanceFilterConfig::default();
    assert!(f.enabled);
    assert_eq!(f.min_latency_threshold, Some(1));
    assert_eq!(f.max_latency_threshold, None);
    assert_eq!(f.min_tvc_threshold, None);
    assert_eq!(f.max_tvc_threshold, Some(15));
    assert_eq!(f.performance_levels, vec!["poor".to_string(), "critical".to_string()]);
    assert!(!f.should_save_vote(3, 13, TvcPerformanceLevel::Good));
    assert!(f.should_save_vote(12, 6, TvcPerformanceLevel::Poor));
}

#[test]
fn describe_default_filter() {
    let f = PerformanceFilterConfig::default();
    assert_eq!(f.describe_filters(), "latency >= 1, tvc <= 15, levels: [poor, critical]");
}

#[test]
fn describe_disabled_and_empty_filters() {
    let mut f = bounds_only(None, None);
    assert_eq!(f.describe_filters(), "all votes");
    f.enabled = false;
    assert_eq!(f.describe_filters(), "disabled");
}

#[test]
fn describe_every_bound() {
    let f = PerformanceFilterConfig {
        enabled: true,
        min_latency_threshold: Some(2),
        max_latency_threshold: Some(30),
        min_tvc_threshold: Some(4),
        max_tvc_threshold: Some(12),
        performance_levels: vec!["fair".to_string()],
    };
    assert_eq!(
        f.describe_filters(),
        "latency >= 2, latency <= 30, tvc >= 4, tvc <= 12, levels: [fair]"
    );
}

#[test]
fn default_config_is_empty() {
    let c = Config::default();
    assert_eq!(c.grpc_url, "");
    assert_eq!(c.vote_account, "");
    assert!(matches!(c.validate(), Err(VoteMonitorError::Config(_))));
}

#[test]
fn valid_config_passes() {
    assert!(valid_config().validate().is_ok());
}

#[test]
fn config_rejects_missing_and_bad_account() {
    let mut c = valid_config();
    c.vote_account = String::new();
    match c.validate() {
        Err(VoteMonitorError::Config(m)) => assert_eq!(m, "vote_account cannot be empty"),
        other => panic!("unexpected {:?}", other),
    }
    c.vote_account = "short".to_string();
    assert!(matches!(c.validate(), Err(VoteMonitorError::Config(_))));
    c.vote_account = "x".repeat(45);
    assert!(matches!(c.validate(), Err(VoteMonitorError::Config(_))));
    c.vote_account = "x".repeat(44);
    assert!(c.validate().is_ok());
    let mut d = valid_config();
    d.grpc_url = String::new();
    match d.validate() {
        Err(VoteMonitorError::Config(m)) => assert_eq!(m, "grpc_url cannot be empty"),
        other => panic!("unexpected {:?}", other),
    }
}

#[test]
fn config_rejects_bad_bounds() {
    let mut c = valid_config();
    c.performance_logging.min_latency_threshold = Some(9);
    c.performance_logging.max_latency_threshold = Some(3);
    match c.validate() {
        Err(VoteMonitorError::Config(m)) => {
            assert_eq!(m, "min_latency_threshold (9) > max_latency_threshold (3)")
        }
        other => panic!("unexpected {:?}", other),
    }
    let mut c = valid_config();
    c.performance_logging.max_tvc_threshold = Some(17);
    match c.validate() {
        Err(VoteMonitorError::Config(m)) => assert_eq!(m, "max_tvc_threshold (17) cannot exceed 16"),
        other => panic!("unexpected {:?}", other),
    }
    let mut c = valid_config();
    c.performance_logging.min_tvc_threshold = Some(0);
    assert!(matches!(c.validate(), Err(VoteMonitorError::Config(_))));
    let mut c = valid_config();
    c.performance_logging.min_tvc_threshold = Some(14);
    c.performance_logging.max_tvc_threshold = Some(13);
    assert!(matches!(c.validate(), Err(VoteMonitorError::Config(_))));
}

#[test]
fn config_level_names_ignore_case() {
    let mut c = valid_config();
    c.performance_logging.performance_levels = vec!["OPTIMAL".to_string(), "Fair".to_string()];
    assert!(c.validate().is_ok());
    c.performance_logging.performance_levels = vec!["great".to_string()];
    match c.validate() {
        Err(VoteMonitorError::Config(m)) => assert_eq!(
            m,
            "invalid performance level: 'great'. valid levels: optimal, good, fair, poor, critical"
        ),
        other => panic!("unexpected {:?}", other),
    }
}
