use show_me_logs::index::{text_indexing, text_options, RecordLevel};
use show_me_logs::logs::{
    GenericLog, Level, Logs, NodeOutcome, NodeOutcomeInfo, PingPayload, ResultingLog, Timestamp,
};
use show_me_logs::transaction::{add_to_rolling_buffer, RollingBuffer, TransactionIdWs};
use show_me_logs::watcher::{plan_page, register_page, IndexEntry};
use tantivy::schema::{IndexRecordOption, TextOptions, STORED, TEXT};

fn line(tid: &str, tree: Option<&str>, level: Level) -> GenericLog {
    GenericLog::ResultingLog(ResultingLog {
        payload: PingPayload {
            context: None,
            level,
            entries: Some(vec![NodeOutcome {
                info: NodeOutcomeInfo {
                    node_extra_logging: None,
                    node_id: "n".to_string(),
                    node_outcome: "o".to_string(),
                    display_name: "d".to_string(),
                    tree_name: tree.map(|t| t.to_string()),
                },
            }]),
            logger: None,
            message: None,
            transaction_id: tid.to_string(),
            tracking_ids: vec![],
        },
        timestamp: Timestamp { seconds: 0, nanos: 0 },
        data_type: "t".to_string(),
        source: "s".to_string(),
    })
}

fn id(n: u32) -> String {
    format!("{:036}-suffix", n)
}

fn page(result: Vec<GenericLog>) -> Logs {
    Logs {
        result,
        paged_result_cooke: Some("next".to_string()),
        result_count: None,
        total_paged_results_policy: String::new(),
        total_paged_results: 0,
        remaining_paged_results: 0,
    }
}

fn entry(key: &str, journey: Option<&str>) -> IndexEntry {
    IndexEntry { key: key.to_string(), journey: journey.map(|j| j.to_string()) }
}

#[test]
fn text_options_for_transactions_are_text_and_stored() {
    let chosen = text_options(
        Some(text_indexing("default", true, RecordLevel::WithFreqsAndPositions)),
        true,
    );
    assert_eq!(chosen, TEXT | STORED);
}

#[test]
fn text_options_without_indexing_or_storing_are_the_default() {
    assert_eq!(text_options(None, false), TextOptions::default());
    let stored_only = text_options(None, true);
    assert!(stored_only.is_stored());
    assert!(stored_only.get_indexing_options().is_none());
}

#[test]
fn text_indexing_settings() {
    let i = text_indexing("raw", false, RecordLevel::WithFreqs);
    assert_eq!(i.tokenizer(), "raw");
    assert!(!i.fieldnorms());
    assert_eq!(i.index_option(), IndexRecordOption::WithFreqs);
}

#[test]
fn plan_page_keeps_platform_lines_in_order() {
    let p = page(vec![
        line(&id(1), Some("Login"), Level::Info),
        GenericLog::Other(serde_json::Value::Null),
        line(&id(2), None, Level::Error),
    ]);
    let plan = plan_page(&p);
    assert!(!plan.unkeyed);
    assert_eq!(plan.next_cookie.as_deref(), Some("next"));
    assert_eq!(plan.entries.len(), 2);
    assert_eq!(plan.entries[0].key, id(1)[..36]);
    assert_eq!(plan.entries[0].journey.as_deref(), Some("Login"));
    assert_eq!(plan.entries[1].key, id(2)[..36]);
    assert_eq!(plan.entries[1].journey, None);
}

#[test]
fn plan_page_stops_at_a_short_id() {
    let p = page(vec![
        line(&id(1), Some("Login"), Level::Info),
        line("short", Some("Login"), Level::Info),
        line(&id(3), Some("Login"), Level::Info),
    ]);
    let plan = plan_page(&p);
    assert!(plan.unkeyed);
    assert_eq!(plan.entries.len(), 1);
    assert_eq!(plan.entries[0].key, id(1)[..36]);
}

#[test]
fn register_page_announces_new_transactions_in_order() {
    let mut b = RollingBuffer::new();
    add_to_rolling_buffer(&mut b, TransactionIdWs::from_tuple(("k2".to_string(), "J".to_string())));
    let entries = vec![
        entry("k1", Some("J")),
        entry("k2", Some("J")),
        entry("k3", None),
        entry("k1", Some("J")),
        entry("k4", Some("J")),
    ];
    let announced = register_page(&mut b, &entries, entries.len());
    let ids: Vec<&str> = announced.iter().map(|t| t.id().as_str()).collect();
    assert_eq!(ids, vec!["k1", "k4"]);
    assert_eq!(b.transaction_ids(), vec!["k2", "k1", "k4"]);
}

#[test]
fn register_page_only_registers_the_indexed_prefix() {
    let mut b = RollingBuffer::new();
    let entries = vec![entry("k1", Some("J")), entry("k2", Some("J"))];
    let announced = register_page(&mut b, &entries, 1);
    assert_eq!(announced.len(), 1);
    assert_eq!(b.transaction_ids(), vec!["k1"]);
}

#[test]
fn severities_split_the_platform_lines() {
    let p = page(vec![
        line(&id(1), None, Level::Debug),
        line(&id(2), None, Level::Warning),
        GenericLog::Other(serde_json::Value::Null),
        line(&id(3), None, Level::Warn),
        line(&id(4), None, Level::Info),
        line(&id(5), None, Level::Error),
        line(&id(6), None, Level::Error),
    ]);
    let mut total = 0;
    for level in [Level::Debug, Level::Warning, Level::Warn, Level::Info, Level::Error] {
        total += page(p.result.iter().map(copy_line).collect()).filter_logs(level).result.len();
    }
    assert_eq!(total, 6);
}

fn copy_line(g: &GenericLog) -> GenericLog {
    match g {
        GenericLog::ResultingLog(t) => line(
            &t.payload.transaction_id,
            None,
            match t.payload.level {
                Level::Debug => Level::Debug,
                Level::Warning => Level::Warning,
                Level::Warn => Level::Warn,
                Level::Info => Level::Info,
                Level::Error => Level::Error,
            },
        ),
        GenericLog::Other(v) => GenericLog::Other(v.clone()),
    }
}
