use wazuh_console::domain::{
    build_filter_status, format_interval, get_severity_label, minute_bucket_key, parse_interval,
    reshape_vulnerabilities, summarize_agents, threat_stats_of,
};
use wazuh_console::query::{LogFilter, SeverityFilterMode};
use wazuh_console::models::{
    OSPackage, OSVulnerabilityDetails, OSVulnerabilityHit, OSVulnerabilityHits,
    OSVulnerabilityHitsTotal, OSVulnerabilityHitWrapper, OSVulnerabilityResponse, WazuhAgent,
};

fn agent_with_status(id: &str, status: &str) -> WazuhAgent {
    WazuhAgent {
        id: id.to_string(),
        name: format!("host-{}", id),
        ip: None,
        status: status.to_string(),
        version: None,
        node_name: None,
        group: None,
        date_add: None,
        last_keep_alive: None,
        os: None,
        manager: None,
    }
}

fn details(id: &str, severity: Option<&str>, description: Option<&str>) -> OSVulnerabilityDetails {
    OSVulnerabilityDetails {
        category: None,
        classification: None,
        description: description.map(|s| s.to_string()),
        detected_at: None,
        enumeration: None,
        id: id.to_string(),
        published_at: None,
        reference: None,
        scanner: None,
        severity: severity.map(|s| s.to_string()),
        under_evaluation: None,
    }
}

#[test]
fn test_summary_counts_status_buckets() {
    let agents = vec![
        agent_with_status("001", "active"),
        agent_with_status("002", "disconnected"),
        agent_with_status("003", "active"),
        agent_with_status("004", "never_connected"),
        agent_with_status("005", "pending"),
    ];
    let summary = summarize_agents(&agents, 42);
    assert_eq!(summary.total, 42);
    assert_eq!(summary.active, 2);
    assert_eq!(summary.disconnected, 1);
    assert_eq!(summary.never_connected, 1);
}

#[test]
fn test_vulnerability_reshape_nested_and_defaults() {
    let resp = OSVulnerabilityResponse {
        hits: OSVulnerabilityHits {
            total: OSVulnerabilityHitsTotal { value: 2 },
            hits: vec![
                OSVulnerabilityHitWrapper {
                    source: OSVulnerabilityHit {
                        vulnerability: details(
                            "CVE-2025-8869",
                            Some("Critical"),
                            Some("pip vulnerability"),
                        ),
                        package: Some(OSPackage {
                            name: Some("pip".to_string()),
                            version: Some("23.3.1".to_string()),
                            pkg_type: Some("pypi".to_string()),
                            path: None,
                        }),
                        agent: None,
                    },
                },
                OSVulnerabilityHitWrapper {
                    source: OSVulnerabilityHit {
                        vulnerability: details("CVE-2021-1234", None, None),
                        package: Some(OSPackage {
                            name: None,
                            version: None,
                            pkg_type: None,
                            path: None,
                        }),
                        agent: None,
                    },
                },
            ],
        },
    };
    let out = reshape_vulnerabilities(&resp);
    assert_eq!(out.data.total_affected_items, 2);
    assert_eq!(out.data.affected_items.len(), 2);

    let first = &out.data.affected_items[0];
    assert_eq!(first.cve, "CVE-2025-8869");
    assert_eq!(first.severity, "Critical");
    assert_eq!(first.title, Some("pip vulnerability".to_string()));
    let pkg = first.package.as_ref().unwrap();
    assert_eq!(pkg.name, "pip");
    assert_eq!(pkg.version, "23.3.1");
    assert_eq!(first.name, Some("pip".to_string()));
    assert_eq!(first.version, Some("23.3.1".to_string()));

    let second = &out.data.affected_items[1];
    assert_eq!(second.cve, "CVE-2021-1234");
    assert_eq!(second.severity, "-");
    assert_eq!(second.title, None);
    let pkg = second.package.as_ref().unwrap();
    assert_eq!(pkg.name, "");
    assert_eq!(pkg.version, "");
    assert_eq!(second.name, None);
}

#[test]
fn test_vulnerability_reshape_without_package() {
    let resp = OSVulnerabilityResponse {
        hits: OSVulnerabilityHits {
            total: OSVulnerabilityHitsTotal { value: 1 },
            hits: vec![OSVulnerabilityHitWrapper {
                source: OSVulnerabilityHit {
                    vulnerability: details("CVE-2021-5678", Some("Medium"), None),
                    package: None,
                    agent: None,
                },
            }],
        },
    };
    let out = reshape_vulnerabilities(&resp);
    let item = &out.data.affected_items[0];
    assert!(item.package.is_none());
    assert_eq!(item.name, None);
    assert_eq!(item.version, None);
    assert!(item.status.is_none());
}

#[test]
fn test_severity_labels() {
    assert_eq!(get_severity_label(0), "Low");
    assert_eq!(get_severity_label(6), "Low");
    assert_eq!(get_severity_label(7), "Medium");
    assert_eq!(get_severity_label(11), "Medium");
    assert_eq!(get_severity_label(12), "High");
    assert_eq!(get_severity_label(14), "High");
    assert_eq!(get_severity_label(15), "Critical");
    assert_eq!(get_severity_label(200), "Critical");
}

#[test]
fn test_threat_stats_buckets() {
    let levels: Vec<u64> = vec![0, 3, 7, 10, 11, 12, 14, 15, 16, 5];
    let stats = threat_stats_of(&levels);
    assert_eq!(stats.low, 3);
    assert_eq!(stats.medium, 3);
    assert_eq!(stats.high, 2);
    assert_eq!(stats.critical, 2);
}

#[test]
fn test_minute_bucket_key() {
    assert_eq!(
        minute_bucket_key("2023-10-27T10:15:30.000Z"),
        Some("10:15".to_string())
    );
    assert_eq!(minute_bucket_key("short"), None);
}

#[test]
fn test_parse_interval_units() {
    assert_eq!(parse_interval("15m"), Ok(Some(15)));
    assert_eq!(parse_interval("2h"), Ok(Some(120)));
    assert_eq!(parse_interval("1d"), Ok(Some(1440)));
    assert_eq!(parse_interval("30"), Ok(Some(30)));
    assert_eq!(parse_interval("  45M "), Ok(Some(45)));
    assert_eq!(parse_interval(""), Ok(None));
    assert_eq!(parse_interval("   "), Ok(None));
    assert_eq!(parse_interval("abc"), Err("Invalid number format".to_string()));
    assert_eq!(parse_interval("12x"), Err("Invalid number format".to_string()));
}

#[test]
fn test_format_interval_units() {
    assert_eq!(format_interval(1440), "1d");
    assert_eq!(format_interval(2880), "2d");
    assert_eq!(format_interval(120), "2h");
    assert_eq!(format_interval(45), "45m");
    assert_eq!(format_interval(90), "90m");
}

#[test]
fn test_filter_banner_pieces() {
    let f = LogFilter::default();
    assert_eq!(build_filter_status(15, &f), "[Last 15m]");

    let mut f = LogFilter::default();
    f.mode = SeverityFilterMode::Min;
    f.val1 = 7;
    assert_eq!(build_filter_status(90, &f), "[Last 90m | Level \u{2265}7]");

    let mut f = LogFilter::default();
    f.mode = SeverityFilterMode::Exact;
    f.val1 = 10;
    assert_eq!(build_filter_status(60, &f), "[Last 1h | Level =10]");

    let mut f = LogFilter::default();
    f.mode = SeverityFilterMode::Range;
    f.val1 = 5;
    f.val2 = 12;
    f.agent_filter = "Web".to_string();
    f.rule_id_filter = "5710".to_string();
    f.description_filter = "ssh".to_string();
    assert_eq!(
        build_filter_status(120, &f),
        "[Last 2h | Level 5-12 | Agent:Web | Rule:5710 | \"ssh\"]"
    );
}
