use wazuh_console::events::extract_field;
use wazuh_console::json::{extract_config_section, Json};
use wazuh_console::state::LogColumn;

fn obj(fields: Vec<(&str, Json)>) -> Json {
    Json::Obj(fields.into_iter().map(|(k, v)| (k.to_string(), v)).collect())
}

fn s(text: &str) -> Json {
    Json::Str(text.to_string())
}

fn sample_event() -> Json {
    obj(vec![
        ("@timestamp", s("2023-01-01T00:15:30.000Z")),
        (
            "rule",
            obj(vec![
                ("level", Json::UInt(5)),
                ("description", s("Test alert")),
                ("id", s("5710")),
                (
                    "mitre",
                    obj(vec![
                        ("id", Json::Arr(vec![s("T1110"), s("T1021")])),
                        ("tactic", Json::Arr(vec![s("Credential Access")])),
                    ]),
                ),
                (
                    "groups",
                    Json::Arr(vec![s("syslog"), s("sshd"), Json::UInt(4), s("auth"), s("extra")]),
                ),
            ]),
        ),
        ("agent", obj(vec![("id", s("001")), ("name", s("agent1"))])),
        ("data", obj(vec![("src_ip", s("10.0.0.1")), ("dstuser", s("root"))])),
    ])
}

#[test]
fn test_timestamp_is_cut_and_spaced() {
    let event = sample_event();
    assert_eq!(extract_field(&event, LogColumn::Timestamp), "2023-01-01 00:15:30");
    let bare = obj(vec![]);
    assert_eq!(extract_field(&bare, LogColumn::Timestamp), "Unknown");
}

#[test]
fn test_level_is_zero_padded() {
    let event = sample_event();
    assert_eq!(extract_field(&event, LogColumn::Level), "05");
    let bare = obj(vec![]);
    assert_eq!(extract_field(&bare, LogColumn::Level), "00");
    let big = obj(vec![("rule", obj(vec![("level", Json::UInt(12))]))]);
    assert_eq!(extract_field(&big, LogColumn::Level), "12");
}

#[test]
fn test_agent_and_description_fallbacks() {
    let event = sample_event();
    assert_eq!(extract_field(&event, LogColumn::Agent), "agent1");
    assert_eq!(extract_field(&event, LogColumn::Description), "Test alert");
    let bare = obj(vec![]);
    assert_eq!(extract_field(&bare, LogColumn::Agent), "Manager");
    assert_eq!(extract_field(&bare, LogColumn::Description), "No description");
    assert_eq!(extract_field(&bare, LogColumn::RuleId), "-");
}

#[test]
fn test_mitre_columns_take_the_first_entry() {
    let event = sample_event();
    assert_eq!(extract_field(&event, LogColumn::MitreId), "T1110");
    assert_eq!(extract_field(&event, LogColumn::MitreTactic), "Credential Access");
}

#[test]
fn test_ip_and_user_fallback_chains() {
    let event = sample_event();
    assert_eq!(extract_field(&event, LogColumn::SrcIp), "10.0.0.1");
    assert_eq!(extract_field(&event, LogColumn::DstIp), "-");
    assert_eq!(extract_field(&event, LogColumn::User), "root");
}

#[test]
fn test_groups_join_first_three_strings() {
    let event = sample_event();
    assert_eq!(extract_field(&event, LogColumn::Groups), "syslog, sshd, auth");
}

#[test]
fn test_config_section_extraction_chain() {
    let payload = obj(vec![("directories", s("/etc"))]);
    let with_section = obj(vec![(
        "data",
        obj(vec![("syscheck", payload), ("other", Json::Null)]),
    )]);
    match extract_config_section(&with_section, "syscheck") {
        Json::Obj(fs) => assert_eq!(fs[0].0, "directories"),
        _ => panic!("expected the section object"),
    }

    let without_section = obj(vec![("data", obj(vec![("other", Json::UInt(1))]))]);
    match extract_config_section(&without_section, "syscheck") {
        Json::Obj(fs) => assert_eq!(fs[0].0, "other"),
        _ => panic!("expected the data object"),
    }

    let bare = obj(vec![("unrelated", Json::Null)]);
    match extract_config_section(&bare, "syscheck") {
        Json::Obj(fs) => assert_eq!(fs[0].0, "unrelated"),
        _ => panic!("expected the response itself"),
    }
}

#[test]
fn test_json_get_walks_objects_only() {
    let event = sample_event();
    assert!(event.get("missing").is_none());
    assert!(Json::Null.get("x").is_none());
    let rule = event.get("rule").unwrap();
    assert!(matches!(rule.get("level"), Some(Json::UInt(5))));
    assert_eq!(rule.get("groups").unwrap().arr_len(), Some(5));
}
