use wazuh_console::filter::{AgentFilter, FilterPredicate};
use wazuh_console::models::{WazuhAgent, WazuhOS};

fn sample_agent() -> WazuhAgent {
    WazuhAgent {
        id: "001".to_string(),
        name: "Web-Server-01".to_string(),
        ip: Some("192.168.1.10".to_string()),
        status: "active".to_string(),
        version: None,
        node_name: None,
        group: None,
        date_add: None,
        last_keep_alive: None,
        os: Some(WazuhOS {
            name: Some("Ubuntu Linux".to_string()),
            version: None,
            platform: None,
            arch: None,
        }),
        manager: None,
    }
}

#[test]
fn test_agent_filter_parse() {
    let query = "name:web st:active sev:high";
    let filter = AgentFilter::parse(query);

    assert_eq!(filter.predicates.len(), 3);
    assert!(filter.predicates.contains(&FilterPredicate::Name("web".to_string())));
    assert!(filter.predicates.contains(&FilterPredicate::Status("active".to_string())));
    assert!(filter.predicates.contains(&FilterPredicate::Severity(8)));
}

#[test]
fn test_agent_filter_matches() {
    let agent = sample_agent();

    let filter = AgentFilter::parse("name:web");
    assert!(filter.matches(&agent));

    let filter = AgentFilter::parse("st:active");
    assert!(filter.matches(&agent));

    let filter = AgentFilter::parse("os:ubuntu");
    assert!(filter.matches(&agent));

    let filter = AgentFilter::parse("01");
    assert!(filter.matches(&agent));

    let filter = AgentFilter::parse("os:windows");
    assert!(!filter.matches(&agent));
}

#[test]
fn test_agent_filter_named_severity() {
    assert_eq!(AgentFilter::parse("sev:critical").predicates[0], FilterPredicate::Severity(12));
    assert_eq!(AgentFilter::parse("sev:high").predicates[0], FilterPredicate::Severity(8));
    assert_eq!(AgentFilter::parse("sev:medium").predicates[0], FilterPredicate::Severity(4));
    assert_eq!(AgentFilter::parse("sev:low").predicates[0], FilterPredicate::Severity(0));
}

#[test]
fn test_severity_numeric_and_bogus() {
    assert_eq!(AgentFilter::parse("sev:7").predicates[0], FilterPredicate::Severity(7));
    assert_eq!(AgentFilter::parse("sev:crit").predicates[0], FilterPredicate::Severity(12));
    assert_eq!(AgentFilter::parse("sev:med").predicates[0], FilterPredicate::Severity(4));
    assert!(AgentFilter::parse("sev:bogus").predicates.is_empty());
    assert!(AgentFilter::parse("s:bogus").predicates.is_empty());
    assert_eq!(
        AgentFilter::parse("sev:4294967295").predicates[0],
        FilterPredicate::Severity(u32::MAX)
    );
    assert!(AgentFilter::parse("sev:4294967296").predicates.is_empty());
}

#[test]
fn test_parse_is_pure() {
    let a = AgentFilter::parse("name:Web  sev:HIGH  unknown:x bare");
    let b = AgentFilter::parse("name:Web  sev:HIGH  unknown:x bare");
    assert_eq!(a.predicates, b.predicates);
    assert_eq!(a.raw_query, b.raw_query);
    assert_eq!(a.raw_query, "name:Web  sev:HIGH  unknown:x bare");
}

#[test]
fn test_unknown_key_and_bare_token_become_global() {
    let filter = AgentFilter::parse("foo:BAR Baz");
    assert_eq!(filter.predicates.len(), 2);
    assert_eq!(filter.predicates[0], FilterPredicate::Global("foo:bar".to_string()));
    assert_eq!(filter.predicates[1], FilterPredicate::Global("baz".to_string()));
}

#[test]
fn test_empty_filter_matches_everything() {
    let agent = sample_agent();
    assert!(AgentFilter::parse("").matches(&agent));
    assert!(AgentFilter::parse("   ").matches(&agent));
    assert!(AgentFilter::default().matches(&agent));
}

#[test]
fn test_global_matches_name_id_or_ip() {
    let agent = sample_agent();
    assert!(AgentFilter::parse("web-server").matches(&agent));
    assert!(AgentFilter::parse("001").matches(&agent));
    assert!(AgentFilter::parse("192.168").matches(&agent));
    assert!(!AgentFilter::parse("nothere").matches(&agent));
}

#[test]
fn test_severity_predicate_is_vacuous_on_agents() {
    let agent = sample_agent();
    assert!(AgentFilter::parse("sev:12").matches(&agent));
    assert!(AgentFilter::parse("name:web sev:critical").matches(&agent));
}

#[test]
fn test_all_predicates_must_hold() {
    let agent = sample_agent();
    assert!(AgentFilter::parse("name:web st:active").matches(&agent));
    assert!(!AgentFilter::parse("name:web st:disconnected").matches(&agent));
    assert!(!AgentFilter::parse("name:web os:windows").matches(&agent));
}

#[test]
fn test_status_is_exact_match() {
    let agent = sample_agent();
    assert!(AgentFilter::parse("st:ACTIVE").matches(&agent));
    assert!(!AgentFilter::parse("st:act").matches(&agent));
}

#[test]
fn test_key_aliases() {
    assert_eq!(AgentFilter::parse("n:x").predicates[0], FilterPredicate::Name("x".to_string()));
    assert_eq!(AgentFilter::parse("s:high").predicates[0], FilterPredicate::Severity(8));
    assert_eq!(AgentFilter::parse("ip:10.0").predicates[0], FilterPredicate::Ip("10.0".to_string()));
    assert_eq!(AgentFilter::parse("id:001").predicates[0], FilterPredicate::Id("001".to_string()));
}
