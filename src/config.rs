//! Settings: the audit filter that decides which confirmed votes are worth
//! a record, and the checks a configuration must pass.
use vstd::prelude::*;
use vstd::utf8::encode_utf8;
use crate::credits::{level_name, TvcPerformanceLevel};
use crate::error::VoteMonitorError;
use crate::text::{decimal, decimal_text, join, joined, lowercase_of, to_lowercase};

verus! {

/// Which confirmed votes get an audit record. Every bound is optional and
/// inclusive; an empty level list admits every level.
#[derive(Debug, Clone)]
pub struct PerformanceFilterConfig {
    pub enabled: bool,
    pub min_latency_threshold: Option<u64>,
    pub max_latency_threshold: Option<u64>,
    pub min_tvc_threshold: Option<u64>,
    pub max_tvc_threshold: Option<u64>,
    pub performance_levels: Vec<String>,
}

/// The settings of a monitoring session.
#[derive(Debug, Clone)]
pub struct Config {
    pub grpc_url: String,
    pub vote_account: String,
    pub performance_logging: PerformanceFilterConfig,
}

/// The numeric part of the filter: enabled, and every set bound holds.
pub open spec fn bounds_admit(f: PerformanceFilterConfig, latency: u64, tvc_credits: u64) -> bool {
    &&& f.enabled
    &&& (f.min_latency_threshold matches Some(m) ==> latency >= m)
    &&& (f.max_latency_threshold matches Some(m) ==> latency <= m)
    &&& (f.min_tvc_threshold matches Some(m) ==> tvc_credits >= m)
    &&& (f.max_tvc_threshold matches Some(m) ==> tvc_credits <= m)
}

/// Whether the level list admits a level name (both already case-folded).
pub open spec fn level_admitted(levels: Seq<Seq<char>>, name: Seq<char>) -> bool {
    levels.len() == 0 || levels.contains(name)
}

/// The filter's decision, with level names compared after case folding.
pub open spec fn filter_admits(
    f: PerformanceFilterConfig,
    latency: u64,
    tvc_credits: u64,
    level: TvcPerformanceLevel,
) -> bool {
    bounds_admit(f, latency, tvc_credits) && level_admitted(
        f.performance_levels@.map_values(|s: String| lowercase_of(s@)),
        lowercase_of(level_name(level)),
    )
}

/// With a minimum latency of 1 and a maximum of 15 credits, a vote with no
/// latency and a vote with full credits are never recorded, whatever the
/// other settings; with no other bound and no level list, a vote with
/// latency 3 and 13 credits is.
pub proof fn lemma_filter_latency_and_credit_bounds(
    f: PerformanceFilterConfig,
    latency: u64,
    tvc_credits: u64,
    level: TvcPerformanceLevel,
)
    requires
        f.min_latency_threshold == Some(1u64),
        f.max_tvc_threshold == Some(15u64),
    ensures
        !filter_admits(f, 0, tvc_credits, level),
        !filter_admits(f, latency, 16, level),
        f.enabled && f.max_latency_threshold is None && f.min_tvc_threshold is None
            && f.performance_levels@.len() == 0 ==> filter_admits(f, 3, 13, level),
{
}

fn fold_all(levels: &Vec<String>) -> (r: Vec<String>)
    ensures
        r@.map_values(|s: String| s@) == levels@.map_values(|s: String| lowercase_of(s@)),
{
    let mut out: Vec<String> = Vec::new();
    let mut i: usize = 0;
    while i < levels.len()
        invariant
            i <= levels@.len(),
            out@.len() == i,
            out@.map_values(|s: String| s@) == levels@.subrange(0, i as int).map_values(
                |s: String| lowercase_of(s@),
            ),
        decreases levels@.len() - i,
    {
        let ghost before = out@;
        let folded = to_lowercase(levels[i].as_str());
        out.push(folded);
        proof {
            let lhs = out@.map_values(|s: String| s@);
            let rhs = levels@.subrange(0, i + 1).map_values(|s: String| lowercase_of(s@));
            assert forall|k: int| 0 <= k < i + 1 implies lhs[k] == rhs[k] by {
                if k < i {
                    assert(out@[k] == before[k]);
                    assert(levels@.subrange(0, i + 1)[k] == levels@.subrange(0, i as int)[k]);
                    assert(before.map_values(|s: String| s@)[k] == before[k]@);
                    assert(levels@.subrange(0, i as int).map_values(|s: String| lowercase_of(s@))[k]
                        == lowercase_of(levels@.subrange(0, i as int)[k]@));
                } else {
                    assert(out@[k] == folded);
                    assert(levels@.subrange(0, i + 1)[k] == levels@[i as int]);
                }
            }
            assert(lhs =~= rhs);
        }
        i = i + 1;
    }
    assert(levels@.subrange(0, i as int) =~= levels@);
    out
}

fn contains_text(items: &Vec<String>, s: &String) -> (r: bool)
    ensures
        r == items@.map_values(|t: String| t@).contains(s@),
{
    let ghost views = items@.map_values(|t: String| t@);
    let mut i: usize = 0;
    while i < items.len()
        invariant
            i <= items@.len(),
            views == items@.map_values(|t: String| t@),
            forall|k: int| 0 <= k < i ==> views[k] != s@,
        decreases items@.len() - i,
    {
        if items[i] == *s {
            assert(views[i as int] == s@);
            return true;
        }
        i = i + 1;
    }
    false
}

/// A bound's description, when the bound is set.
pub open spec fn bound_part(label: Seq<char>, bound: Option<u64>) -> Seq<Seq<char>> {
    match bound {
        Some(b) => seq![label + decimal_text(b as nat)],
        None => Seq::empty(),
    }
}

/// The level list's description, when the list is not empty.
pub open spec fn levels_part(levels: Seq<String>) -> Seq<Seq<char>> {
    if levels.len() == 0 {
        Seq::empty()
    } else {
        seq!["levels: ["@ + joined(levels.map_values(|s: String| s@), ", "@) + "]"@]
    }
}

/// The descriptions of the filter's active criteria, in order.
pub open spec fn filter_parts(f: PerformanceFilterConfig) -> Seq<Seq<char>> {
    bound_part("latency >= "@, f.min_latency_threshold) + bound_part(
        "latency <= "@,
        f.max_latency_threshold,
    ) + bound_part("tvc >= "@, f.min_tvc_threshold) + bound_part("tvc <= "@, f.max_tvc_threshold)
        + levels_part(f.performance_levels@)
}

/// A one-line description of the filter.
pub open spec fn filter_description(f: PerformanceFilterConfig) -> Seq<char> {
    if !f.enabled {
        "disabled"@
    } else if filter_parts(f).len() == 0 {
        "all votes"@
    } else {
        joined(filter_parts(f), ", "@)
    }
}

fn push_bound(parts: &mut Vec<String>, label: &str, bound: Option<u64>)
    ensures
        final(parts)@.map_values(|s: String| s@) == old(parts)@.map_values(|s: String| s@)
            + bound_part(label@, bound),
{
    let ghost before = parts@.map_values(|s: String| s@);
    if let Some(b) = bound {
        let mut text = String::from_str(label);
        text.append(decimal(b).as_str());
        parts.push(text);
        assert(parts@.map_values(|s: String| s@) =~= before + bound_part(label@, bound));
    } else {
        assert(parts@.map_values(|s: String| s@) =~= before + bound_part(label@, bound));
    }
}

impl PerformanceFilterConfig {
    /// Describes the active criteria, e.g. `latency >= 1, tvc <= 15`.
    pub fn describe_filters(&self) -> (r: String)
        ensures
            r@ == filter_description(*self),
    {
        if !self.enabled {
            proof { reveal_strlit("disabled"); }
            return String::from_str("disabled");
        }
        let mut filters: Vec<String> = Vec::new();
        assert(filters@.map_values(|s: String| s@) =~= Seq::<Seq<char>>::empty());
        push_bound(&mut filters, "latency >= ", self.min_latency_threshold);
        push_bound(&mut filters, "latency <= ", self.max_latency_threshold);
        push_bound(&mut filters, "tvc >= ", self.min_tvc_threshold);
        push_bound(&mut filters, "tvc <= ", self.max_tvc_threshold);
        let ghost before = filters@.map_values(|s: String| s@);
        if self.performance_levels.len() > 0 {
            let mut text = String::from_str("levels: [");
            text.append(join(&self.performance_levels, ", ").as_str());
            text.append("]");
            filters.push(text);
            assert(filters@.map_values(|s: String| s@) =~= before + levels_part(
                self.performance_levels@,
            ));
        } else {
            assert(filters@.map_values(|s: String| s@) =~= before + levels_part(
                self.performance_levels@,
            ));
        }
        assert(filters@.map_values(|s: String| s@) =~= filter_parts(*self));
        if filters.len() == 0 {
            proof { reveal_strlit("all votes"); }
            String::from_str("all votes")
        } else {
            join(&filters, ", ")
        }
    }

    /// The filter's decision given the case-folded level name and the
    /// case-folded level list.
    pub fn should_save_vote_folded(
        &self,
        latency: u64,
        tvc_credits: u64,
        folded_level: &String,
        folded_levels: &Vec<String>,
    ) -> (r: bool)
        ensures
            r == (bounds_admit(*self, latency, tvc_credits) && level_admitted(
                folded_levels@.map_values(|s: String| s@),
                folded_level@,
            )),
    {
        if !self.enabled {
            return false;
        }
        if let Some(min_latency) = self.min_latency_threshold {
            if latency < min_latency {
                return false;
            }
        }
        if let Some(max_latency) = self.max_latency_threshold {
            if latency > max_latency {
                return false;
            }
        }
        if let Some(min_tvc) = self.min_tvc_threshold {
            if tvc_credits < min_tvc {
                return false;
            }
        }
        if let Some(max_tvc) = self.max_tvc_threshold {
            if tvc_credits > max_tvc {
                return false;
            }
        }
        if folded_levels.len() > 0 {
            return contains_text(folded_levels, folded_level);
        }
        true
    }

    /// Whether a vote with this latency, credit count and level gets an
    /// audit record: the filter is enabled, every set bound holds, and the
    /// level is listed (ignoring case) or the list is empty.
    pub fn should_save_vote(
        &self,
        latency: u64,
        tvc_credits: u64,
        performance_level: TvcPerformanceLevel,
    ) -> (r: bool)
        ensures
            r == filter_admits(*self, latency, tvc_credits, performance_level),
    {
        if !self.enabled {
            return false;
        }
        let folded_level = to_lowercase(performance_level.as_str());
        let folded_levels = fold_all(&self.performance_levels);
        self.should_save_vote_folded(latency, tvc_credits, &folded_level, &folded_levels)
    }
}

/// Whether a (case-folded) name is one of the five level names.
pub open spec fn is_level_name(s: Seq<char>) -> bool {
    s == level_name(TvcPerformanceLevel::Optimal) || s == level_name(TvcPerformanceLevel::Good)
        || s == level_name(TvcPerformanceLevel::Fair) || s == level_name(
        TvcPerformanceLevel::Poor,
    ) || s == level_name(TvcPerformanceLevel::Critical)
}

/// A lower and an upper bound that are both set are in order.
pub open spec fn bounds_ordered(lo: Option<u64>, hi: Option<u64>) -> bool {
    match (lo, hi) {
        (Some(a), Some(b)) => a <= b,
        _ => true,
    }
}

/// What a configuration must satisfy to be used.
pub open spec fn config_valid(c: Config) -> bool {
    let p = c.performance_logging;
    &&& c.grpc_url@.len() > 0
    &&& c.vote_account@.len() > 0
    &&& 32 <= encode_utf8(c.vote_account@).len() <= 44
    &&& bounds_ordered(p.min_latency_threshold, p.max_latency_threshold)
    &&& bounds_ordered(p.min_tvc_threshold, p.max_tvc_threshold)
    &&& (p.max_tvc_threshold matches Some(t) ==> t <= 16)
    &&& (p.min_tvc_threshold matches Some(t) ==> t != 0)
    &&& forall|i: int|
        0 <= i < p.performance_levels@.len() ==> is_level_name(
            lowercase_of(#[trigger] p.performance_levels@[i]@),
        )
}

fn known_level_name(s: &String) -> (r: bool)
    ensures
        r == is_level_name(s@),
{
    proof {
        reveal_strlit("optimal");
        reveal_strlit("good");
        reveal_strlit("fair");
        reveal_strlit("poor");
        reveal_strlit("critical");
        assert("optimal"@ =~= level_name(TvcPerformanceLevel::Optimal));
        assert("good"@ =~= level_name(TvcPerformanceLevel::Good));
        assert("fair"@ =~= level_name(TvcPerformanceLevel::Fair));
        assert("poor"@ =~= level_name(TvcPerformanceLevel::Poor));
        assert("critical"@ =~= level_name(TvcPerformanceLevel::Critical));
    }
    *s == String::from_str("optimal") || *s == String::from_str("good") || *s == String::from_str(
        "fair",
    ) || *s == String::from_str("poor") || *s == String::from_str("critical")
}

fn range_message(name_lo: &str, lo: u64, name_hi: &str, hi: u64) -> (r: String) {
    let mut m = String::from_str(name_lo);
    m.append(" (");
    m.append(decimal(lo).as_str());
    m.append(") > ");
    m.append(name_hi);
    m.append(" (");
    m.append(decimal(hi).as_str());
    m.append(")");
    m
}

fn config_error(message: &str) -> (r: VoteMonitorError)
    ensures
        r is Config,
{
    VoteMonitorError::Config(String::from_str(message))
}

impl Config {
    /// Checks the settings: both endpoint and account set, an account of 32
    /// to 44 bytes, ordered bounds, credit bounds within 1 to 16, and only
    /// known level names (ignoring case).
    #[verifier::loop_isolation(false)]
    pub fn validate(&self) -> (r: Result<(), VoteMonitorError>)
        ensures
            r is Ok <==> config_valid(*self),
            r matches Err(e) ==> e is Config,
    {
        if self.grpc_url.as_str().is_empty() {
            return Err(config_error("grpc_url cannot be empty"));
        }
        if self.vote_account.as_str().is_empty() {
            return Err(config_error("vote_account cannot be empty"));
        }
        let account_len = self.vote_account.as_str().as_bytes().len();
        if account_len < 32 || account_len > 44 {
            return Err(
                config_error("vote_account appears to be invalid (should be 32-44 characters)"),
            );
        }
        let perf = &self.performance_logging;
        if let (Some(lo), Some(hi)) = (perf.min_latency_threshold, perf.max_latency_threshold) {
            if lo > hi {
                return Err(
                    VoteMonitorError::Config(
                        range_message("min_latency_threshold", lo, "max_latency_threshold", hi),
                    ),
                );
            }
        }
        if let (Some(lo), Some(hi)) = (perf.min_tvc_threshold, perf.max_tvc_threshold) {
            if lo > hi {
                return Err(
                    VoteMonitorError::Config(
                        range_message("min_tvc_threshold", lo, "max_tvc_threshold", hi),
                    ),
                );
            }
        }
        if let Some(tvc) = perf.max_tvc_threshold {
            if tvc > 16 {
                let mut m = String::from_str("max_tvc_threshold (");
                m.append(decimal(tvc).as_str());
                m.append(") cannot exceed 16");
                return Err(VoteMonitorError::Config(m));
            }
        }
        if let Some(tvc) = perf.min_tvc_threshold {
            if tvc == 0 {
                return Err(config_error("min_tvc_threshold cannot be 0"));
            }
        }
        let mut i: usize = 0;
        while i < perf.performance_levels.len()
            invariant
                i <= perf.performance_levels@.len(),
                forall|k: int|
                    0 <= k < i ==> is_level_name(
                        lowercase_of(#[trigger] perf.performance_levels@[k]@),
                    ),
            decreases perf.performance_levels@.len() - i,
        {
            let level = &perf.performance_levels[i];
            let folded = to_lowercase(level.as_str());
            if !known_level_name(&folded) {
                assert(!is_level_name(lowercase_of(perf.performance_levels@[i as int]@)));
                let mut m = String::from_str("invalid performance level: '");
                m.append(level.as_str());
                m.append("'. valid levels: optimal, good, fair, poor, critical");
                return Err(VoteMonitorError::Config(m));
            }
            i = i + 1;
        }
        Ok(())
    }
}

impl Default for PerformanceFilterConfig {
    /// Enabled; latency at least 1, credits at most 15, levels poor and critical.
    fn default() -> (r: Self)
        ensures
            r.enabled,
            r.min_latency_threshold == Some(1u64),
            r.max_latency_threshold is None,
            r.min_tvc_threshold is None,
            r.max_tvc_threshold == Some(15u64),
            r.performance_levels@.map_values(|s: String| s@) == seq![
                level_name(TvcPerformanceLevel::Poor),
                level_name(TvcPerformanceLevel::Critical),
            ],
    {
        proof {
            reveal_strlit("poor");
            reveal_strlit("critical");
        }
        let mut levels: Vec<String> = Vec::new();
        levels.push(String::from_str("poor"));
        levels.push(String::from_str("critical"));
        let r = PerformanceFilterConfig {
            enabled: true,
            min_latency_threshold: Some(1),
            max_latency_threshold: None,
            min_tvc_threshold: None,
            max_tvc_threshold: Some(15),
            performance_levels: levels,
        };
        assert("poor"@ =~= level_name(TvcPerformanceLevel::Poor));
        assert("critical"@ =~= level_name(TvcPerformanceLevel::Critical));
        assert(r.performance_levels@.map_values(|s: String| s@) =~= seq![
            level_name(TvcPerformanceLevel::Poor),
            level_name(TvcPerformanceLevel::Critical),
        ]);
        r
    }
}

impl Default for Config {
    /// Empty endpoint and account, with the default filter.
    fn default() -> (r: Self)
        ensures
            r.grpc_url@.len() == 0,
            r.vote_account@.len() == 0,
    {
        Config {
            grpc_url: String::new(),
            vote_account: String::new(),
            performance_logging: PerformanceFilterConfig::default(),
        }
    }
}

} // verus!
