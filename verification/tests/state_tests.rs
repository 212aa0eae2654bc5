use wazuh_console::json::Json;
use wazuh_console::models::{WazuhAgent, WazuhGroup};
use wazuh_console::state::{
    apply_update, drain_updates, jump_matches, prune_notifications, AppState, DataUpdate,
    FilterPopupTab, LogColumn, Notification, NotificationLevel, PopupMode, SortColumn,
};

fn agent(id: &str, name: &str) -> WazuhAgent {
    WazuhAgent {
        id: id.to_string(),
        name: name.to_string(),
        ip: None,
        status: "active".to_string(),
        version: None,
        node_name: None,
        group: None,
        date_add: None,
        last_keep_alive: None,
        os: None,
        manager: None,
    }
}

#[test]
fn test_update_replaces_its_slice_only() {
    let mut state = AppState::new();
    apply_update(&mut state, DataUpdate::Agents(vec![agent("001", "a")]), 0);
    assert_eq!(state.agents.len(), 1);
    assert_eq!(state.groups.len(), 0);

    apply_update(
        &mut state,
        DataUpdate::Groups(vec![WazuhGroup { name: "default".to_string(), count: Some(5) }]),
        0,
    );
    assert_eq!(state.agents.len(), 1);
    assert_eq!(state.groups.len(), 1);
    assert_eq!(state.groups[0].name, "default");
}

#[test]
fn test_later_update_wins_never_merges() {
    let mut state = AppState::new();
    let a = DataUpdate::Agents(vec![agent("001", "first"), agent("002", "second")]);
    let b = DataUpdate::Agents(vec![agent("003", "third")]);
    apply_update(&mut state, a, 0);
    apply_update(&mut state, b, 1);
    assert_eq!(state.agents.len(), 1);
    assert_eq!(state.agents[0].id, "003");
}

#[test]
fn test_group_scoped_fetch_lands_in_the_agents_slice() {
    let mut state = AppState::new();
    apply_update(&mut state, DataUpdate::Agents(vec![agent("001", "a")]), 0);
    apply_update(&mut state, DataUpdate::GroupAgents(vec![agent("009", "g")]), 1);
    assert_eq!(state.agents.len(), 1);
    assert_eq!(state.agents[0].id, "009");
}

#[test]
fn test_drain_applies_in_receive_order() {
    let mut state = AppState::new();
    let updates = vec![
        DataUpdate::SecurityEvents(vec![Json::Null, Json::Null]),
        DataUpdate::Error("first".to_string()),
        DataUpdate::SecurityEvents(vec![Json::Bool(true)]),
        DataUpdate::Error("second".to_string()),
    ];
    drain_updates(&mut state, updates, 7);
    assert_eq!(state.logs.len(), 1);
    assert!(matches!(state.logs[0], Json::Bool(true)));
    assert_eq!(state.error_message, Some("second".to_string()));
}

#[test]
fn test_notifications_append_in_order() {
    let mut state = AppState::new();
    apply_update(
        &mut state,
        DataUpdate::Notification("one".to_string(), NotificationLevel::Info),
        5,
    );
    apply_update(
        &mut state,
        DataUpdate::Notification("two".to_string(), NotificationLevel::Error),
        9,
    );
    assert_eq!(state.notifications.len(), 2);
    assert_eq!(state.notifications[0].message, "one");
    assert_eq!(state.notifications[0].timestamp, 5);
    assert_eq!(state.notifications[1].message, "two");
    assert_eq!(state.notifications[1].level, NotificationLevel::Error);
}

#[test]
fn test_error_popup_opens() {
    let mut state = AppState::new();
    apply_update(
        &mut state,
        DataUpdate::ErrorPopup { title: "Oops".to_string(), message: "broken".to_string() },
        0,
    );
    assert_eq!(
        state.popup_mode,
        PopupMode::Error { title: "Oops".to_string(), message: "broken".to_string() }
    );
}

#[test]
fn test_prune_drops_only_stale_notifications() {
    let make = |msg: &str, ts: u64| Notification {
        message: msg.to_string(),
        level: NotificationLevel::Info,
        timestamp: ts,
    };
    let list = vec![make("old", 0), make("fresh", 8), make("future", 20)];
    let kept = prune_notifications(list, 10, 5);
    assert_eq!(kept.len(), 2);
    assert_eq!(kept[0].message, "fresh");
    assert_eq!(kept[1].message, "future");
}

#[test]
fn test_jump_matches_by_name_or_id() {
    let agents = vec![agent("001", "Web-Server"), agent("002", "db"), agent("101", "cache")];
    assert!(jump_matches(&agents, "").is_empty());
    assert_eq!(jump_matches(&agents, "WEB"), vec![0]);
    assert_eq!(jump_matches(&agents, "01"), vec![0, 2]);
    assert_eq!(jump_matches(&agents, "nothing"), Vec::<usize>::new());
}

#[test]
fn test_filter_tab_cycle() {
    assert_eq!(FilterPopupTab::Severity.next(), FilterPopupTab::Agent);
    assert_eq!(FilterPopupTab::Columns.next(), FilterPopupTab::Severity);
    assert_eq!(FilterPopupTab::Severity.prev(), FilterPopupTab::Columns);
    let all = [
        FilterPopupTab::Severity,
        FilterPopupTab::Agent,
        FilterPopupTab::Rule,
        FilterPopupTab::Text,
        FilterPopupTab::Columns,
    ];
    for t in all {
        assert_eq!(t.next().prev(), t);
        assert_eq!(t.prev().next(), t);
    }
}

#[test]
fn test_sort_column_cycle() {
    assert_eq!(SortColumn::Id.next(), SortColumn::Name);
    assert_eq!(SortColumn::LastKeepAlive.next(), SortColumn::Id);
}

#[test]
fn test_log_columns_and_labels() {
    let all = LogColumn::all();
    assert_eq!(all.len(), 11);
    assert_eq!(all[0], LogColumn::Timestamp);
    assert_eq!(LogColumn::Timestamp.label(), "Timestamp");
    assert_eq!(LogColumn::RuleId.label(), "Rule ID");
    assert_eq!(LogColumn::MitreTactic.label(), "Tactic");
}
