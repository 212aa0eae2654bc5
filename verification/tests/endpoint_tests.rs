use wazuh_console::endpoints::{
    agents_url, alerts_search_url, auth_url, config_url, delete_group_url, group_agents_url,
    groups_url, join_commas, restart_url, section_for_component, syscollector_url, upgrade_url,
    vuln_search_url,
};

const BASE: &str = "https://manager:55000";

#[test]
fn test_auth_and_groups_paths() {
    assert_eq!(auth_url(BASE), "https://manager:55000/security/user/authenticate");
    assert_eq!(groups_url(BASE), "https://manager:55000/groups");
}

#[test]
fn test_agents_paging_and_group_scope() {
    assert_eq!(
        agents_url(BASE, None, 0, 500),
        "https://manager:55000/agents?offset=0&limit=500"
    );
    assert_eq!(
        agents_url(BASE, Some("web"), 10, 50),
        "https://manager:55000/agents?offset=10&limit=50&group=web"
    );
    assert_eq!(
        agents_url(BASE, Some("all"), 10, 50),
        "https://manager:55000/agents?offset=10&limit=50"
    );
}

#[test]
fn test_group_membership_paths() {
    let ids = vec!["001".to_string(), "002".to_string()];
    assert_eq!(
        group_agents_url(BASE, "web", &ids),
        "https://manager:55000/groups/web/agents?agents_list=001,002"
    );
    assert_eq!(
        delete_group_url(BASE, "web"),
        "https://manager:55000/groups?groups_list=web"
    );
}

#[test]
fn test_join_commas_edges() {
    assert_eq!(join_commas(&vec![]), "");
    assert_eq!(join_commas(&vec!["001".to_string()]), "001");
    assert_eq!(
        join_commas(&vec!["a".to_string(), "b".to_string(), "c".to_string()]),
        "a,b,c"
    );
}

#[test]
fn test_syscollector_paths() {
    assert_eq!(
        syscollector_url(BASE, "001", "hardware"),
        "https://manager:55000/syscollector/001/hardware"
    );
    assert_eq!(
        syscollector_url(BASE, "001", "packages"),
        "https://manager:55000/syscollector/001/packages"
    );
}

#[test]
fn test_restart_and_upgrade_paths() {
    let ids = vec!["001".to_string(), "003".to_string()];
    assert_eq!(
        restart_url(BASE, &ids),
        "https://manager:55000/agents/restart?agents_list=001,003"
    );
    assert_eq!(
        upgrade_url(BASE, &ids),
        "https://manager:55000/agents/upgrade?agents_list=001,003"
    );
}

#[test]
fn test_component_section_aliases() {
    assert_eq!(section_for_component("logcollector"), "localfile");
    assert_eq!(section_for_component("agent"), "client");
    assert_eq!(section_for_component("analysis"), "global");
    assert_eq!(section_for_component("wmodules"), "wmodules");
    assert_eq!(section_for_component("syscheck"), "syscheck");
}

#[test]
fn test_config_paths_use_the_alias_table() {
    assert_eq!(
        config_url(BASE, "001", "logcollector"),
        "https://manager:55000/agents/001/config/logcollector/localfile"
    );
    assert_eq!(
        config_url(BASE, "001", "syscheck"),
        "https://manager:55000/agents/001/config/syscheck/syscheck"
    );
}

#[test]
fn test_search_paths() {
    assert_eq!(
        alerts_search_url("https://search:9200"),
        "https://search:9200/wazuh-alerts-*/_search"
    );
    assert_eq!(
        vuln_search_url("https://search:9200"),
        "https://search:9200/wazuh-states-vulnerabilities*/_search"
    );
}
