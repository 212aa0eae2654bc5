use wazuh_console::json::Json;
use wazuh_console::query::{
    build_log_query, build_vuln_query, description_clause, mitre_clause, rule_clause,
    severity_clause, time_clause, LogFilter, SeverityFilterMode,
};

/// The value under a field of an object; panics when it is not there.
fn field<'a>(j: &'a Json, key: &str) -> &'a Json {
    match j.get(key) {
        Some(v) => v,
        None => panic!("missing field"),
    }
}

fn as_u64(j: &Json) -> u64 {
    match j {
        Json::UInt(n) => *n,
        _ => panic!("not a number"),
    }
}

fn as_str(j: &Json) -> &str {
    match j {
        Json::Str(s) => s.as_str(),
        _ => panic!("not a string"),
    }
}

fn as_arr(j: &Json) -> &Vec<Json> {
    match j {
        Json::Arr(v) => v,
        _ => panic!("not an array"),
    }
}

#[test]
fn test_log_filter_query_generation() {
    let mut filter = LogFilter::default();
    filter.mode = SeverityFilterMode::Exact;
    filter.val1 = 10;
    let query = severity_clause(&filter);
    assert_eq!(as_u64(field(field(&query, "term"), "rule.level")), 10);

    let mut filter = LogFilter::default();
    filter.mode = SeverityFilterMode::Range;
    filter.val1 = 5;
    filter.val2 = 12;
    let query = severity_clause(&filter);
    let bounds = field(field(&query, "range"), "rule.level");
    assert_eq!(as_u64(field(bounds, "gte")), 5);
    assert_eq!(as_u64(field(bounds, "lte")), 12);
}

#[test]
fn test_min_and_max_modes_are_one_sided() {
    let mut filter = LogFilter::default();
    filter.mode = SeverityFilterMode::Min;
    filter.val1 = 7;
    let query = severity_clause(&filter);
    let bounds = field(field(&query, "range"), "rule.level");
    assert_eq!(as_u64(field(bounds, "gte")), 7);
    assert!(bounds.get("lte").is_none());

    let mut filter = LogFilter::default();
    filter.mode = SeverityFilterMode::Max;
    filter.val1 = 9;
    let query = severity_clause(&filter);
    let bounds = field(field(&query, "range"), "rule.level");
    assert_eq!(as_u64(field(bounds, "lte")), 9);
    assert!(bounds.get("gte").is_none());
}

#[test]
fn test_rule_id_comma_list_compiles_to_terms() {
    let clause = rule_clause("5710, 5711 ,5712");
    let vals = as_arr(field(field(&clause, "terms"), "rule.id"));
    assert_eq!(vals.len(), 3);
    assert_eq!(as_str(&vals[0]), "5710");
    assert_eq!(as_str(&vals[1]), "5711");
    assert_eq!(as_str(&vals[2]), "5712");
}

#[test]
fn test_rule_id_wildcard_and_exact() {
    let clause = rule_clause("57*");
    assert_eq!(as_str(field(field(field(&clause, "wildcard"), "rule.id"), "value")), "57*");

    let clause = rule_clause("5710");
    assert_eq!(as_str(field(field(&clause, "term"), "rule.id")), "5710");
}

#[test]
fn test_description_clause_is_and_combined() {
    let clause = description_clause("failed login");
    let inner = field(field(&clause, "match"), "rule.description");
    assert_eq!(as_str(field(inner, "query")), "failed login");
    assert_eq!(as_str(field(inner, "operator")), "and");
}

#[test]
fn test_mitre_clause_is_should_of_three() {
    let clause = mitre_clause("T1110");
    let inner = field(&clause, "bool");
    let should = as_arr(field(inner, "should"));
    assert_eq!(should.len(), 3);
    let w0 = field(field(&should[0], "wildcard"), "rule.mitre.id");
    assert_eq!(as_str(field(w0, "value")), "*t1110*");
    let w1 = field(field(&should[1], "wildcard"), "rule.mitre.tactic");
    assert_eq!(as_str(field(w1, "value")), "*t1110*");
    let w2 = field(field(&should[2], "wildcard"), "rule.mitre.technique");
    assert_eq!(as_str(field(w2, "value")), "*t1110*");
    assert_eq!(as_u64(field(inner, "minimum_should_match")), 1);
}

#[test]
fn test_time_clause_window() {
    let clause = time_clause(90);
    let window = field(field(&clause, "range"), "@timestamp");
    assert_eq!(as_str(field(window, "gte")), "now-90m");
    assert_eq!(as_str(field(window, "lte")), "now");
}

#[test]
fn test_full_log_query_shape() {
    let mut filter = LogFilter::default();
    filter.mode = SeverityFilterMode::Min;
    filter.val1 = 3;
    filter.agent_filter = "Web".to_string();
    filter.rule_id_filter = "5710,5711".to_string();
    let query = build_log_query(Some("007"), 15, 50, 25, Some(&filter));

    assert_eq!(as_u64(field(&query, "from")), 50);
    assert_eq!(as_u64(field(&query, "size")), 25);
    let sort = as_arr(field(&query, "sort"));
    assert_eq!(as_str(field(field(&sort[0], "@timestamp"), "order")), "desc");

    let must = as_arr(field(field(field(&query, "query"), "bool"), "must"));
    assert_eq!(must.len(), 5);
    let window = field(field(field(&must[0], "range"), "@timestamp"), "gte");
    assert_eq!(as_str(window), "now-15m");
    assert_eq!(as_u64(field(field(field(&must[1], "range"), "rule.level"), "gte")), 3);
    let wc = field(field(&must[2], "wildcard"), "agent.name");
    assert_eq!(as_str(field(wc, "value")), "*web*");
    match field(wc, "case_insensitive") {
        Json::Bool(b) => assert!(*b),
        _ => panic!("not a boolean"),
    }
    let ids = as_arr(field(field(&must[3], "terms"), "rule.id"));
    assert_eq!(ids.len(), 2);
    assert_eq!(as_str(field(field(&must[4], "term"), "agent.id")), "007");
}

#[test]
fn test_log_query_without_filter() {
    let query = build_log_query(None, 60, 0, 50, None);
    let must = as_arr(field(field(field(&query, "query"), "bool"), "must"));
    assert_eq!(must.len(), 1);
    let window = field(field(&must[0], "range"), "@timestamp");
    assert_eq!(as_str(field(window, "gte")), "now-60m");
}

#[test]
fn test_vuln_query_shape() {
    let query = build_vuln_query("005");
    assert_eq!(as_u64(field(&query, "size")), 500);
    let must = as_arr(field(field(field(&query, "query"), "bool"), "must"));
    assert_eq!(must.len(), 1);
    assert_eq!(as_str(field(field(&must[0], "term"), "agent.id")), "005");
    let sort = as_arr(field(&query, "sort"));
    assert_eq!(
        as_str(field(field(&sort[0], "vulnerability.severity"), "order")),
        "asc"
    );
}
