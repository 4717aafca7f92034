use show_me_logs::index::{transaction_document, transaction_id_schema};
use show_me_logs::logs::{
    GenericLog, Level, NodeOutcome, NodeOutcomeInfo, PingPayload, ResultingLog, Timestamp,
};
use show_me_logs::transaction::RollingBuffer;
use show_me_logs::watcher::{journey_name, plan_log, register_entry, transaction_key, IndexEntry};
use tantivy::schema::Value;

const TID: &str = "0a1b2c3d-4e5f-6789-abcd-ef0123456789-request/3";

fn node(tree: Option<&str>) -> NodeOutcome {
    NodeOutcome {
        info: NodeOutcomeInfo {
            node_extra_logging: None,
            node_id: "id".to_string(),
            node_outcome: "outcome".to_string(),
            display_name: "name".to_string(),
            tree_name: tree.map(|t| t.to_string()),
        },
    }
}

fn log_with(tid: &str, entries: Option<Vec<NodeOutcome>>) -> GenericLog {
    GenericLog::ResultingLog(ResultingLog {
        payload: PingPayload {
            context: None,
            level: Level::Info,
            entries,
            logger: None,
            message: None,
            transaction_id: tid.to_string(),
            tracking_ids: vec![],
        },
        timestamp: Timestamp { seconds: 0, nanos: 0 },
        data_type: "t".to_string(),
        source: "s".to_string(),
    })
}

#[test]
fn key_is_first_36_bytes() {
    assert_eq!(transaction_key(TID), "0a1b2c3d-4e5f-6789-abcd-ef0123456789");
    assert_eq!(transaction_key(&TID[..36]), &TID[..36]);
}

#[test]
fn key_of_non_ascii_id_on_a_boundary() {
    let id = format!("{}é-rest", "x".repeat(34));
    assert_eq!(transaction_key(&id), format!("{}é", "x".repeat(34)));
}

#[test]
fn journey_is_first_tree_name() {
    assert_eq!(journey_name(&None), None);
    assert_eq!(journey_name(&Some(vec![])), None);
    assert_eq!(journey_name(&Some(vec![node(None), node(None)])), None);
    assert_eq!(
        journey_name(&Some(vec![node(None), node(Some("Login")), node(Some("Other"))])),
        Some("Login".to_string())
    );
}

#[test]
fn plan_skips_other_json() {
    assert!(plan_log(&GenericLog::Other(serde_json::Value::Null)).is_none());
}

#[test]
fn plan_takes_key_and_journey() {
    let e = plan_log(&log_with(TID, Some(vec![node(Some("Login"))]))).unwrap();
    assert_eq!(e.key, &TID[..36]);
    assert_eq!(e.journey.as_deref(), Some("Login"));
    let e = plan_log(&log_with(TID, None)).unwrap();
    assert_eq!(e.journey, None);
}

#[test]
fn register_announces_new_transactions_once() {
    let mut b = RollingBuffer::new();
    let entry = || IndexEntry { key: "k1".to_string(), journey: Some("Login".to_string()) };
    let first = register_entry(&mut b, entry()).unwrap();
    assert_eq!(first.id(), "k1");
    assert_eq!(first.journey(), "Login");
    assert!(register_entry(&mut b, entry()).is_none());
    assert_eq!(b.len(), 1);
}

#[test]
fn register_without_journey_changes_nothing() {
    let mut b = RollingBuffer::new();
    assert!(register_entry(&mut b, IndexEntry { key: "k1".to_string(), journey: None }).is_none());
    assert_eq!(b.len(), 0);
}

#[test]
fn schema_has_one_transaction_field() {
    let (schema, field) = transaction_id_schema();
    assert_eq!(schema.num_fields(), 1);
    assert_eq!(field.field_id(), 0);
    assert_eq!(schema.get_field("transactionId").unwrap(), field);
    assert_eq!(schema.get_field_name(field), "transactionId");
    let entry = schema.get_field_entry(field);
    assert!(entry.is_indexed());
    assert!(entry.is_stored());
    match entry.field_type() {
        tantivy::schema::FieldType::Str(options) => {
            assert_eq!(*options, tantivy::schema::TEXT | tantivy::schema::STORED);
        }
        _ => panic!("expected a text field"),
    }
}

#[test]
fn document_holds_the_key() {
    let (_, field) = transaction_id_schema();
    let doc = transaction_document(field, "key-1");
    let values: Vec<_> = doc.field_values().iter().collect();
    assert_eq!(values.len(), 1);
    assert_eq!(values[0].field(), field);
    assert_eq!(values[0].value().as_str(), Some("key-1"));
}
