use show_me_logs::logs::{
    select_logs, Filters, GenericLog, Level, Logs, NodeOutcome, NodeOutcomeInfo, PingPayload,
    ResultingLog, Timestamp,
};

fn line(tid: &str, level: Level) -> GenericLog {
    GenericLog::ResultingLog(ResultingLog {
        payload: PingPayload {
            context: None,
            level,
            entries: Some(vec![NodeOutcome {
                info: NodeOutcomeInfo {
                    node_extra_logging: None,
                    node_id: "n1".to_string(),
                    node_outcome: "true".to_string(),
                    display_name: "Check".to_string(),
                    tree_name: None,
                },
            }]),
            logger: None,
            message: Some(tid.to_string()),
            transaction_id: tid.to_string(),
            tracking_ids: vec![],
        },
        timestamp: Timestamp { seconds: 1_700_000_000, nanos: 5 },
        data_type: "application/json".to_string(),
        source: "am-everything".to_string(),
    })
}

fn page() -> Logs {
    Logs {
        result: vec![
            line("t1", Level::Debug),
            GenericLog::Other(serde_json::Value::String("raw".to_string())),
            line("t2", Level::Error),
            line("t3", Level::Warning),
            line("t4", Level::Error),
            line("t5", Level::Warn),
        ],
        paged_result_cooke: Some("cookie".to_string()),
        result_count: Some(6),
        total_paged_results_policy: "NONE".to_string(),
        total_paged_results: -1,
        remaining_paged_results: -1,
    }
}

fn ids(logs: &Logs) -> Vec<String> {
    logs.result
        .iter()
        .map(|g| match g {
            GenericLog::ResultingLog(t) => t.payload.transaction_id.clone(),
            GenericLog::Other(_) => "other".to_string(),
        })
        .collect()
}

#[test]
fn filter_keeps_lines_of_the_level_in_order() {
    let r = page().filter_logs(Level::Error);
    assert_eq!(ids(&r), vec!["t2", "t4"]);
    assert_eq!(r.paged_result_cooke.as_deref(), Some("cookie"));
    assert_eq!(r.result_count, Some(6));
    assert_eq!(r.total_paged_results_policy, "NONE");
    assert_eq!(r.total_paged_results, -1);
    assert_eq!(r.remaining_paged_results, -1);
}

#[test]
fn filter_drops_other_json() {
    let r = page().filter_logs(Level::Info);
    assert!(r.result.is_empty());
}

#[test]
fn filter_twice_is_filter_once() {
    let once = page().filter_logs(Level::Error);
    let twice = page().filter_logs(Level::Error).filter_logs(Level::Error);
    assert_eq!(ids(&once), ids(&twice));
}

#[test]
fn filter_by_two_levels_keeps_nothing() {
    let r = page().filter_logs(Level::Error).filter_logs(Level::Debug);
    assert!(r.result.is_empty());
}

#[test]
fn select_warn_keeps_warning_not_warn() {
    let r = select_logs(page(), Some(Filters::Warn));
    assert_eq!(ids(&r), vec!["t3"]);
}

#[test]
fn select_error_and_debug() {
    assert_eq!(ids(&select_logs(page(), Some(Filters::Error))), vec!["t2", "t4"]);
    assert_eq!(ids(&select_logs(page(), Some(Filters::Debug))), vec!["t1"]);
}

#[test]
fn select_none_all_default_keep_everything() {
    let all = vec!["t1", "other", "t2", "t3", "t4", "t5"];
    assert_eq!(ids(&select_logs(page(), None)), all);
    assert_eq!(ids(&select_logs(page(), Some(Filters::All))), all);
    assert_eq!(ids(&select_logs(page(), Some(Filters::Default))), all);
}

#[test]
fn default_page_is_empty() {
    let d = Logs::default();
    assert!(d.result.is_empty());
    assert!(d.paged_result_cooke.is_none());
    assert!(d.result_count.is_none());
    assert_eq!(d.total_paged_results_policy, "");
    assert_eq!(d.total_paged_results, 0);
    assert_eq!(d.remaining_paged_results, 0);
}
