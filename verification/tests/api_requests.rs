use show_me_logs::requests::{
    combined_filter, join, node_filter, script_filter, tail_request, transaction_request,
};

fn pairs(v: &[(&str, &str)]) -> Vec<(String, String)> {
    v.iter().map(|(a, b)| (a.to_string(), b.to_string())).collect()
}

#[test]
fn tail_request_with_cookie_and_filter() {
    let r = tail_request("https://x/monitoring/logs", "k", "s", Some("c1"), Some("f"));
    assert_eq!(r.url, "https://x/monitoring/logs/tail");
    assert_eq!(
        r.query,
        pairs(&[
            ("source", "am-everything,idm-everything"),
            ("_queryFilter", "f"),
            ("_pagedResultCookie", "c1"),
        ])
    );
    assert_eq!(r.headers, pairs(&[("x-api-key", "k"), ("x-api-secret", "s")]));
}

#[test]
fn tail_request_without_cookie_or_filter() {
    let r = tail_request("e", "k", "s", None, None);
    assert_eq!(r.url, "e/tail");
    assert_eq!(
        r.query,
        pairs(&[
            ("source", "am-everything,idm-everything"),
            ("_queryFilter", ""),
            ("_pagedResultCookie", ""),
        ])
    );
}

#[test]
fn transaction_request_parameters() {
    let r = transaction_request("e", "k", "s", "tx-1", None);
    assert_eq!(r.url, "e");
    assert_eq!(
        r.query,
        pairs(&[
            ("source", "am-everything,idm-everything"),
            ("transactionId", "tx-1"),
            ("_queryFilter", ""),
        ])
    );
    assert_eq!(r.headers, pairs(&[("x-api-key", "k"), ("x-api-secret", "s")]));
    let r = transaction_request("e", "k", "s", "tx-1", Some("q"));
    assert_eq!(r.query[2], ("_queryFilter".to_string(), "q".to_string()));
}

#[test]
fn script_and_node_filters() {
    assert_eq!(
        script_filter("abc"),
        "/payload/logger sw \"scripts.AUTHENTICATION_TREE_DECISION_NODE.abc\""
    );
    assert_eq!(node_filter("My Node"), "/payload/entries/info/displayName eq \"My Node\"");
}

#[test]
fn combined_filter_cases() {
    assert_eq!(combined_filter(None, None), "");
    assert_eq!(combined_filter(Some("s1"), None), script_filter("s1"));
    assert_eq!(combined_filter(None, Some("n1")), node_filter("n1"));
    assert_eq!(
        combined_filter(Some("s1"), Some("n1")),
        format!("{} or {}", node_filter("n1"), script_filter("s1"))
    );
}

#[test]
fn join_puts_separator_between_parts() {
    let parts = vec!["a".to_string(), "b".to_string(), "c".to_string()];
    assert_eq!(join(&parts, ", "), "a, b, c");
    assert_eq!(join(&vec![], ", "), "");
    assert_eq!(join(&vec!["x".to_string()], ", "), "x");
}
