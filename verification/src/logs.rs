//! The log records returned by the logs API, and the level filter applied to
//! them before they are handed to clients.

use vstd::prelude::*;

verus! {

/// A JSON value carried through unchanged.
#[verifier::external_type_specification]
#[verifier::external_body]
pub struct ExJsonValue(serde_json::Value);

/// A JSON object carried through unchanged.
#[verifier::external_type_specification]
#[verifier::external_body]
#[verifier::reject_recursive_types(K)]
#[verifier::reject_recursive_types(V)]
pub struct ExJsonMap<K, V>(serde_json::Map<K, V>);

/// Severity of a log line.
#[derive(PartialEq, Eq, Structural)]
pub enum Level {
    Debug,
    Warning,
    Warn,
    Info,
    Error,
}

/// What a journey node reported.
pub struct NodeOutcomeInfo {
    pub node_extra_logging: Option<serde_json::Map<String, serde_json::Value>>,
    pub node_id: String,
    pub node_outcome: String,
    pub display_name: String,
    pub tree_name: Option<String>,
}

/// One entry of a journey's node trail.
pub struct NodeOutcome {
    pub info: NodeOutcomeInfo,
}

/// The payload of a log line written by the platform.
pub struct PingPayload {
    pub context: Option<String>,
    pub level: Level,
    pub entries: Option<Vec<NodeOutcome>>,
    pub logger: Option<String>,
    pub message: Option<String>,
    pub transaction_id: String,
    pub tracking_ids: Vec<String>,
}

/// A point in time: whole seconds since the Unix epoch and the nanoseconds
/// past that second.
pub struct Timestamp {
    pub seconds: i64,
    pub nanos: u32,
}

/// A log line whose payload has the platform's shape.
pub struct ResultingLog {
    pub payload: PingPayload,
    pub timestamp: Timestamp,
    pub data_type: String,
    pub source: String,
}

/// Any log line: one with the platform's payload, or any other JSON.
pub enum GenericLog {
    ResultingLog(ResultingLog),
    Other(serde_json::Value),
}

/// A page of log lines, with the paging data the API sent along.
pub struct Logs {
    pub result: Vec<GenericLog>,
    pub paged_result_cooke: Option<String>,
    pub result_count: Option<i32>,
    pub total_paged_results_policy: String,
    pub total_paged_results: i16,
    pub remaining_paged_results: i16,
}

/// Whether `log` is a platform log line of severity `level`.
pub open spec fn has_level(log: GenericLog, level: Level) -> bool {
    match log {
        GenericLog::ResultingLog(t) => t.payload.level == level,
        GenericLog::Other(_) => false,
    }
}

/// The lines of `s` that have severity `level`, in their order.
pub open spec fn lines_with_level(s: Seq<GenericLog>, level: Level) -> Seq<GenericLog> {
    s.filter(|g: GenericLog| has_level(g, level))
}

/// Whether `log` is a platform log line.
pub open spec fn is_platform(log: GenericLog) -> bool {
    log is ResultingLog
}

/// The platform log lines of `s`, in their order.
pub open spec fn platform_lines(s: Seq<GenericLog>) -> Seq<GenericLog> {
    s.filter(|g: GenericLog| is_platform(g))
}

/// One step of the filter: the lines of `s` with a level are those of its
/// first `s.len() - 1` lines, then its last line if that has the level.
pub proof fn lines_with_level_step(s: Seq<GenericLog>, level: Level)
    requires
        s.len() > 0,
    ensures
        lines_with_level(s, level) == if has_level(s.last(), level) {
            lines_with_level(s.drop_last(), level).push(s.last())
        } else {
            lines_with_level(s.drop_last(), level)
        },
{
    reveal(Seq::filter);
}

/// Every line kept by the level filter has that level, and every line of
/// that level is kept.
pub proof fn lines_with_level_exact(s: Seq<GenericLog>, level: Level)
    ensures
        forall|i: int|
            0 <= i < lines_with_level(s, level).len() ==> has_level(
                #[trigger] lines_with_level(s, level)[i],
                level,
            ),
        forall|i: int| 0 <= i < s.len() && has_level(#[trigger] s[i], level) ==> lines_with_level(
            s,
            level,
        ).contains(s[i]),
        lines_with_level(s, level).len() <= s.len(),
    decreases s.len(),
{
    reveal(Seq::filter);
    if s.len() > 0 {
        let init = s.drop_last();
        lines_with_level_exact(init, level);
        let rest = lines_with_level(init, level);
        assert forall|i: int| 0 <= i < s.len() && has_level(#[trigger] s[i], level) implies lines_with_level(
            s,
            level,
        ).contains(s[i]) by {
            if i < s.len() - 1 {
                assert(init[i] == s[i]);
                let k: int = choose|k: int| 0 <= k < rest.len() && rest[k] == init[i];
                if has_level(s.last(), level) {
                    assert(lines_with_level(s, level)[k] == s[i]);
                }
            } else {
                assert(lines_with_level(s, level)[rest.len() as int] == s[i]);
            }
        }
    }
}

/// Filtering by a level a second time changes nothing.
pub proof fn lines_with_level_idempotent(s: Seq<GenericLog>, level: Level)
    ensures
        lines_with_level(lines_with_level(s, level), level) == lines_with_level(s, level),
    decreases s.len(),
{
    reveal(Seq::filter);
    if s.len() > 0 {
        lines_with_level_idempotent(s.drop_last(), level);
        let rest = lines_with_level(s.drop_last(), level);
        if has_level(s.last(), level) {
            assert(rest.push(s.last()).drop_last() =~= rest);
        }
    }
}

/// Filtering by one level, then by another, keeps no line.
pub proof fn lines_with_level_disjoint(s: Seq<GenericLog>, a: Level, b: Level)
    requires
        a != b,
    ensures
        lines_with_level(lines_with_level(s, a), b).len() == 0,
    decreases s.len(),
{
    reveal(Seq::filter);
    if s.len() > 0 {
        lines_with_level_disjoint(s.drop_last(), a, b);
        let rest = lines_with_level(s.drop_last(), a);
        if has_level(s.last(), a) {
            assert(rest.push(s.last()).drop_last() =~= rest);
        }
    }
}

/// The five severities split the platform lines: filtering by one severity
/// and then by another keeps nothing, and the numbers of lines of each
/// severity add up to the number of platform lines.
pub proof fn levels_split_platform_lines(s: Seq<GenericLog>)
    ensures
        forall|a: Level, b: Level|
            a != b ==> #[trigger] lines_with_level(lines_with_level(s, a), b).len() == 0,
        lines_with_level(s, Level::Debug).len() + lines_with_level(s, Level::Warning).len()
            + lines_with_level(s, Level::Warn).len() + lines_with_level(s, Level::Info).len()
            + lines_with_level(s, Level::Error).len() == platform_lines(s).len(),
    decreases s.len(),
{
    assert forall|a: Level, b: Level|
        a != b implies #[trigger] lines_with_level(lines_with_level(s, a), b).len() == 0 by {
        lines_with_level_disjoint(s, a, b);
    }
    reveal(Seq::filter);
    if s.len() > 0 {
        levels_split_platform_lines(s.drop_last());
    }
}

/// A line has a severity exactly when it is a platform log line whose
/// payload carries that level; every other JSON line has none.
pub proof fn has_level_is_payload_level(log: GenericLog, level: Level)
    ensures
        has_level(log, level) <==> (log matches GenericLog::ResultingLog(t) && t.payload.level
            == level),
        log is Other ==> !has_level(log, level),
{
}

/// The level filter keeps exactly the platform lines whose payload carries
/// the level, in their order.
pub proof fn lines_with_level_is_payload_filter(s: Seq<GenericLog>, level: Level)
    ensures
        lines_with_level(s, level) == s.filter(
            |g: GenericLog| g matches GenericLog::ResultingLog(t) && t.payload.level == level,
        ),
{
    let direct = |g: GenericLog| g matches GenericLog::ResultingLog(t) && t.payload.level == level;
    assert((|g: GenericLog| has_level(g, level)) =~= direct);
}

/// Whether `log` is a platform log line of severity `level`.
pub fn log_has_level(log: &GenericLog, level: &Level) -> (r: bool)
    ensures
        r == has_level(*log, *level),
        r == (log matches GenericLog::ResultingLog(t) && t.payload.level == *level),
{
    match log {
        GenericLog::ResultingLog(t) => t.payload.level == *level,
        GenericLog::Other(_) => false,
    }
}

impl Logs {
    /// Keeps the platform log lines of severity `level`, in their order, and
    /// drops every other line; the paging data is kept as it was.
    pub fn filter_logs(self, level: Level) -> (r: Logs)
        ensures
            r.result@ == lines_with_level(self.result@, level),
            r.result@ == self.result@.filter(
                |g: GenericLog| g matches GenericLog::ResultingLog(t) && t.payload.level == level,
            ),
            r.paged_result_cooke == self.paged_result_cooke,
            r.result_count == self.result_count,
            r.total_paged_results_policy == self.total_paged_results_policy,
            r.total_paged_results == self.total_paged_results,
            r.remaining_paged_results == self.remaining_paged_results,
    {
        let Logs {
            result,
            paged_result_cooke,
            result_count,
            total_paged_results_policy,
            total_paged_results,
            remaining_paged_results,
        } = self;
        let ghost items = result@;
        let mut kept: Vec<GenericLog> = Vec::new();
        let mut rest = result;
        let mut tail: Vec<GenericLog> = Vec::new();
        // Take the lines from the back, then put the kept ones back in order.
        while rest.len() > 0
            invariant
                rest@ == items.take(rest@.len() as int),
                rest@.len() <= items.len(),
                lines_with_level(items, level) == lines_with_level(rest@, level) + tail@.reverse(),
            decreases rest@.len(),
        {
            let ghost before = rest@;
            let line = rest.pop().unwrap();
            assert(rest@ =~= before.drop_last());
            proof {
                lines_with_level_step(before, level);
            }
            assert(rest@ =~= items.take(rest@.len() as int));
            if log_has_level(&line, &level) {
                let ghost t0 = tail@;
                tail.push(line);
                assert(tail@.reverse() =~= seq![before.last()] + t0.reverse());
                assert(lines_with_level(before, level) =~= lines_with_level(rest@, level).push(
                    before.last(),
                ));
                assert(lines_with_level(rest@, level).push(before.last()) + t0.reverse()
                    =~= lines_with_level(rest@, level) + (seq![before.last()] + t0.reverse()));
            }
        }
        proof {
            reveal(Seq::filter);
        }
        assert(lines_with_level(rest@, level) =~= Seq::<GenericLog>::empty());
        while tail.len() > 0
            invariant
                lines_with_level(items, level) == kept@ + tail@.reverse(),
            decreases tail@.len(),
        {
            let ghost t0 = tail@;
            let ghost k0 = kept@;
            let line = tail.pop().unwrap();
            kept.push(line);
            assert(t0.reverse() =~= seq![t0.last()] + tail@.reverse());
            assert(k0 + t0.reverse() =~= kept@ + tail@.reverse());
        }
        assert(kept@ =~= kept@ + tail@.reverse());
        proof {
            lines_with_level_is_payload_filter(items, level);
        }
        Logs {
            result: kept,
            paged_result_cooke,
            result_count,
            total_paged_results_policy,
            total_paged_results,
            remaining_paged_results,
        }
    }
}

impl Default for Logs {
    /// An empty page: no lines, no cookie, no count, an empty policy and
    /// zero counters.
    fn default() -> (r: Logs)
        ensures
            r.result@.len() == 0,
            r.paged_result_cooke is None,
            r.result_count is None,
            r.total_paged_results_policy@.len() == 0,
            r.total_paged_results == 0,
            r.remaining_paged_results == 0,
    {
        Logs {
            result: Vec::new(),
            paged_result_cooke: None,
            result_count: None,
            total_paged_results_policy: String::new(),
            total_paged_results: 0,
            remaining_paged_results: 0,
        }
    }
}

/// The severity filter a client may ask for.
pub enum Filters {
    All,
    Warn,
    Error,
    Debug,
    Default,
}

/// The severity that a requested filter keeps; `None` keeps every line.
/// Note that `Warn` keeps the lines of severity `Warning`.
pub open spec fn filter_level(filter: Option<Filters>) -> Option<Level> {
    match filter {
        Some(Filters::Warn) => Some(Level::Warning),
        Some(Filters::Error) => Some(Level::Error),
        Some(Filters::Debug) => Some(Level::Debug),
        _ => None,
    }
}

/// Applies the filter a client asked for to a page of logs.
pub fn select_logs(logs: Logs, filter: Option<Filters>) -> (r: Logs)
    ensures
        match filter_level(filter) {
            Some(level) => {
                &&& r.result@ == lines_with_level(logs.result@, level)
                &&& r.paged_result_cooke == logs.paged_result_cooke
                &&& r.result_count == logs.result_count
                &&& r.total_paged_results_policy == logs.total_paged_results_policy
                &&& r.total_paged_results == logs.total_paged_results
                &&& r.remaining_paged_results == logs.remaining_paged_results
            },
            None => r == logs,
        },
{
    match filter {
        None => logs,
        Some(f) => match f {
            Filters::Warn => logs.filter_logs(Level::Warning),
            Filters::Error => logs.filter_logs(Level::Error),
            Filters::Debug => logs.filter_logs(Level::Debug),
            _ => logs,
        },
    }
}

} // verus!
