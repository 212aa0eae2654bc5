//! Application state and its single-writer reducer. Background operations
//! report through `DataUpdate` messages; the reducer drains them in arrival
//! order and each message fully replaces its slice of the state.

use vstd::prelude::*;

verus! {

use crate::json::Json;
use crate::text::{chars_of, contains_chars, contains_seq, lower, lower_vec};
use crate::models::{
    ThreatStats, VulnerabilitySummary, WazuhAgent, WazuhGroup, WazuhHardwareItem,
    WazuhProcessItem, WazuhProgramItem, WazuhVulnerabilityItem,
};

/// How loud a notification is.
#[derive(Debug, PartialEq, Clone)]
pub enum NotificationLevel {
    Info,
    Success,
    Warning,
    Error,
}

/// One transient message to the operator. The tick counter it was raised at
/// stands in for a wall clock, which the core does not read.
#[derive(Debug, Clone)]
pub struct Notification {
    pub message: String,
    pub level: NotificationLevel,
    pub timestamp: u64,
}

/// Which screen the operator is on.
#[derive(Debug, PartialEq, Clone)]
pub enum ActiveView {
    Dashboard,
    AgentList,
    AgentInspector,
    SecurityEvents,
    GroupManagement,
}

/// Which popup is open, if any.
#[derive(Debug, PartialEq, Clone)]
pub enum PopupMode {
    Closed,
    GroupAssignment { agent_id: String },
    SeverityFilter,
    SshUsername { agent_id: String, agent_ip: String },
    AgentJump,
    Error { title: String, message: String },
    Help,
    CommandPalette,
}

/// The columns of the event table.
#[derive(Debug, PartialEq, Clone, Copy)]
pub enum LogColumn {
    Timestamp,
    Level,
    Agent,
    Description,
    RuleId,
    MitreId,
    MitreTactic,
    SrcIp,
    DstIp,
    User,
    Groups,
}

impl LogColumn {
    /// The column's header text.
    pub fn label(&self) -> (r: &'static str)
        ensures
            r@ == match self {
                LogColumn::Timestamp => "Timestamp"@,
                LogColumn::Level => "Level"@,
                LogColumn::Agent => "Agent"@,
                LogColumn::Description => "Description"@,
                LogColumn::RuleId => "Rule ID"@,
                LogColumn::MitreId => "MITRE ID"@,
                LogColumn::MitreTactic => "Tactic"@,
                LogColumn::SrcIp => "Src IP"@,
                LogColumn::DstIp => "Dst IP"@,
                LogColumn::User => "User"@,
                LogColumn::Groups => "Groups"@,
            },
    {
        match self {
            LogColumn::Timestamp => "Timestamp",
            LogColumn::Level => "Level",
            LogColumn::Agent => "Agent",
            LogColumn::Description => "Description",
            LogColumn::RuleId => "Rule ID",
            LogColumn::MitreId => "MITRE ID",
            LogColumn::MitreTactic => "Tactic",
            LogColumn::SrcIp => "Src IP",
            LogColumn::DstIp => "Dst IP",
            LogColumn::User => "User",
            LogColumn::Groups => "Groups",
        }
    }

    /// Every column, in display order.
    pub fn all() -> (r: Vec<LogColumn>)
        ensures
            r@ == seq![
                LogColumn::Timestamp,
                LogColumn::Level,
                LogColumn::Agent,
                LogColumn::Description,
                LogColumn::RuleId,
                LogColumn::MitreId,
                LogColumn::MitreTactic,
                LogColumn::SrcIp,
                LogColumn::DstIp,
                LogColumn::User,
                LogColumn::Groups,
            ],
    {
        let mut r: Vec<LogColumn> = Vec::new();
        r.push(LogColumn::Timestamp);
        r.push(LogColumn::Level);
        r.push(LogColumn::Agent);
        r.push(LogColumn::Description);
        r.push(LogColumn::RuleId);
        r.push(LogColumn::MitreId);
        r.push(LogColumn::MitreTactic);
        r.push(LogColumn::SrcIp);
        r.push(LogColumn::DstIp);
        r.push(LogColumn::User);
        r.push(LogColumn::Groups);
        proof {
            assert(r@ =~= seq![
                LogColumn::Timestamp,
                LogColumn::Level,
                LogColumn::Agent,
                LogColumn::Description,
                LogColumn::RuleId,
                LogColumn::MitreId,
                LogColumn::MitreTactic,
                LogColumn::SrcIp,
                LogColumn::DstIp,
                LogColumn::User,
                LogColumn::Groups,
            ]);
        }
        r
    }
}

/// The tabs of the filter popup.
#[derive(Debug, PartialEq, Clone, Copy)]
pub enum FilterPopupTab {
    Severity,
    Agent,
    Rule,
    Text,
    Columns,
}

/// The tab to the right of a tab, wrapping around.
pub open spec fn tab_next(t: FilterPopupTab) -> FilterPopupTab {
    match t {
        FilterPopupTab::Severity => FilterPopupTab::Agent,
        FilterPopupTab::Agent => FilterPopupTab::Rule,
        FilterPopupTab::Rule => FilterPopupTab::Text,
        FilterPopupTab::Text => FilterPopupTab::Columns,
        FilterPopupTab::Columns => FilterPopupTab::Severity,
    }
}

/// The tab to the left of a tab, wrapping around.
pub open spec fn tab_prev(t: FilterPopupTab) -> FilterPopupTab {
    match t {
        FilterPopupTab::Severity => FilterPopupTab::Columns,
        FilterPopupTab::Agent => FilterPopupTab::Severity,
        FilterPopupTab::Rule => FilterPopupTab::Agent,
        FilterPopupTab::Text => FilterPopupTab::Rule,
        FilterPopupTab::Columns => FilterPopupTab::Text,
    }
}

/// Law: the two tab moves are inverse, so stepping right and back left, or
/// left and back right, lands on the starting tab.
pub proof fn lemma_tab_moves_inverse(t: FilterPopupTab)
    ensures
        tab_next(tab_prev(t)) == t,
        tab_prev(tab_next(t)) == t,
{
}

impl FilterPopupTab {
    /// The tab to the right, wrapping around.
    pub fn next(&self) -> (r: Self)
        ensures
            r == tab_next(*self),
    {
        match self {
            FilterPopupTab::Severity => FilterPopupTab::Agent,
            FilterPopupTab::Agent => FilterPopupTab::Rule,
            FilterPopupTab::Rule => FilterPopupTab::Text,
            FilterPopupTab::Text => FilterPopupTab::Columns,
            FilterPopupTab::Columns => FilterPopupTab::Severity,
        }
    }

    /// The tab to the left, wrapping around; the inverse of `next`.
    pub fn prev(&self) -> (r: Self)
        ensures
            r == tab_prev(*self),
    {
        match self {
            FilterPopupTab::Severity => FilterPopupTab::Columns,
            FilterPopupTab::Agent => FilterPopupTab::Severity,
            FilterPopupTab::Rule => FilterPopupTab::Agent,
            FilterPopupTab::Text => FilterPopupTab::Rule,
            FilterPopupTab::Columns => FilterPopupTab::Text,
        }
    }
}

/// How the event list is rendered.
#[derive(Debug, PartialEq, Clone)]
pub enum LogViewMode {
    Table,
    Raw,
}

/// What the host table is sorted by.
#[derive(Debug, PartialEq, Clone)]
pub enum SortColumn {
    Id,
    Name,
    Ip,
    Status,
    Os,
    LastKeepAlive,
}

impl SortColumn {
    /// The next sort column in the cycle.
    pub fn next(&self) -> (r: Self)
        ensures
            r == match self {
                SortColumn::Id => SortColumn::Name,
                SortColumn::Name => SortColumn::Ip,
                SortColumn::Ip => SortColumn::Status,
                SortColumn::Status => SortColumn::Os,
                SortColumn::Os => SortColumn::LastKeepAlive,
                SortColumn::LastKeepAlive => SortColumn::Id,
            },
    {
        match self {
            SortColumn::Id => SortColumn::Name,
            SortColumn::Name => SortColumn::Ip,
            SortColumn::Ip => SortColumn::Status,
            SortColumn::Status => SortColumn::Os,
            SortColumn::Os => SortColumn::LastKeepAlive,
            SortColumn::LastKeepAlive => SortColumn::Id,
        }
    }
}

/// Which way the host table is sorted.
#[derive(Debug, PartialEq, Clone)]
pub enum SortOrder {
    Asc,
    Desc,
}

/// The tabs of the host inspector.
#[derive(Debug, PartialEq, Clone)]
pub enum InspectorTab {
    Hardware,
    Processes,
    Programs,
    Vulnerabilities,
    Logs,
    Config,
}

/// The steps of the first-run setup flow.
#[derive(Debug, PartialEq, Clone)]
pub enum ConfigStep {
    Url,
    OsUrl,
    Username,
    Password,
    Confirm,
}

/// One completed background operation's result, or a message for the
/// operator. Each data-bearing variant fully replaces its slice of the
/// state; there is no partial merge.
pub enum DataUpdate {
    Agents(Vec<WazuhAgent>),
    Groups(Vec<WazuhGroup>),
    GroupAgents(Vec<WazuhAgent>),
    SecurityEvents(Vec<Json>),
    VulnSummary(VulnerabilitySummary),
    ThreatStats(ThreatStats),
    AgentHardware(WazuhHardwareItem),
    AgentProcesses(Vec<WazuhProcessItem>),
    AgentPrograms(Vec<WazuhProgramItem>),
    AgentVulnerabilities(Vec<WazuhVulnerabilityItem>),
    AgentLogs(Vec<Json>),
    AgentConfig(Json),
    AlertHistory(Vec<(String, u64)>),
    TopAgents(Vec<(String, u64)>),
    Notification(String, NotificationLevel),
    Error(String),
    ErrorPopup { title: String, message: String },
}

/// The authoritative application state: every data slice the views read.
/// Only the reducer writes it.
pub struct AppState {
    pub agents: Vec<WazuhAgent>,
    pub groups: Vec<WazuhGroup>,
    pub logs: Vec<Json>,
    pub vuln_summary: VulnerabilitySummary,
    pub threat_stats: ThreatStats,
    pub hardware: Option<WazuhHardwareItem>,
    pub processes: Vec<WazuhProcessItem>,
    pub programs: Vec<WazuhProgramItem>,
    pub vulnerabilities: Vec<WazuhVulnerabilityItem>,
    pub agent_logs: Vec<Json>,
    pub agent_config: Option<Json>,
    pub alert_buckets: Vec<(String, u64)>,
    pub top_agents: Vec<(String, u64)>,
    pub notifications: Vec<Notification>,
    pub error_message: Option<String>,
    pub popup_mode: PopupMode,
}

impl AppState {
    /// The state at startup: every slice empty, no popup, no error.
    pub fn new() -> (r: AppState)
        ensures
            r.agents@.len() == 0,
            r.groups@.len() == 0,
            r.logs@.len() == 0,
            r.vuln_summary.critical == 0 && r.vuln_summary.high == 0 && r.vuln_summary.medium
                == 0 && r.vuln_summary.low == 0 && r.vuln_summary.untriaged == 0,
            r.threat_stats.critical == 0 && r.threat_stats.high == 0 && r.threat_stats.medium
                == 0 && r.threat_stats.low == 0,
            r.hardware is None,
            r.processes@.len() == 0,
            r.programs@.len() == 0,
            r.vulnerabilities@.len() == 0,
            r.agent_logs@.len() == 0,
            r.agent_config is None,
            r.alert_buckets@.len() == 0,
            r.top_agents@.len() == 0,
            r.notifications@.len() == 0,
            r.error_message is None,
            r.popup_mode == PopupMode::Closed,
    {
        AppState {
            agents: Vec::new(),
            groups: Vec::new(),
            logs: Vec::new(),
            vuln_summary: VulnerabilitySummary {
                critical: 0,
                high: 0,
                medium: 0,
                low: 0,
                untriaged: 0,
            },
            threat_stats: ThreatStats::default(),
            hardware: None,
            processes: Vec::new(),
            programs: Vec::new(),
            vulnerabilities: Vec::new(),
            agent_logs: Vec::new(),
            agent_config: None,
            alert_buckets: Vec::new(),
            top_agents: Vec::new(),
            notifications: Vec::new(),
            error_message: None,
            popup_mode: PopupMode::Closed,
        }
    }
}

/// One message applied to one state: the targeted slice equals the payload
/// and every other field is unchanged. Host lists from the plain and the
/// group-scoped fetch land in the same slice; a notification appends, stamped
/// with the reducer's tick; an error message and an error popup overwrite
/// theirs.
pub open spec fn applies(pre: AppState, u: DataUpdate, now: u64, post: AppState) -> bool {
    match u {
        DataUpdate::Agents(v) => post == AppState { agents: v, ..pre },
        DataUpdate::Groups(v) => post == AppState { groups: v, ..pre },
        DataUpdate::GroupAgents(v) => post == AppState { agents: v, ..pre },
        DataUpdate::SecurityEvents(v) => post == AppState { logs: v, ..pre },
        DataUpdate::VulnSummary(v) => post == AppState { vuln_summary: v, ..pre },
        DataUpdate::ThreatStats(v) => post == AppState { threat_stats: v, ..pre },
        DataUpdate::AgentHardware(v) => post == AppState { hardware: Some(v), ..pre },
        DataUpdate::AgentProcesses(v) => post == AppState { processes: v, ..pre },
        DataUpdate::AgentPrograms(v) => post == AppState { programs: v, ..pre },
        DataUpdate::AgentVulnerabilities(v) => post == AppState { vulnerabilities: v, ..pre },
        DataUpdate::AgentLogs(v) => post == AppState { agent_logs: v, ..pre },
        DataUpdate::AgentConfig(v) => post == AppState { agent_config: Some(v), ..pre },
        DataUpdate::AlertHistory(v) => post == AppState { alert_buckets: v, ..pre },
        DataUpdate::TopAgents(v) => post == AppState { top_agents: v, ..pre },
        DataUpdate::Notification(m, l) => {
            &&& pre == AppState { notifications: pre.notifications, ..post }
            &&& post.notifications@ == pre.notifications@.push(
                Notification { message: m, level: l, timestamp: now },
            )
        },
        DataUpdate::Error(m) => post == AppState { error_message: Some(m), ..pre },
        DataUpdate::ErrorPopup { title, message } => post == AppState {
            popup_mode: PopupMode::Error { title, message },
            ..pre
        },
    }
}

/// Applies one message. `now` is the reducer's tick counter, stamped onto
/// notifications.
pub fn apply_update(state: &mut AppState, update: DataUpdate, now: u64)
    ensures
        applies(*old(state), update, now, *final(state)),
{
    match update {
        DataUpdate::Agents(v) => {
            state.agents = v;
        },
        DataUpdate::Groups(v) => {
            state.groups = v;
        },
        DataUpdate::GroupAgents(v) => {
            state.agents = v;
        },
        DataUpdate::SecurityEvents(v) => {
            state.logs = v;
        },
        DataUpdate::VulnSummary(v) => {
            state.vuln_summary = v;
        },
        DataUpdate::ThreatStats(v) => {
            state.threat_stats = v;
        },
        DataUpdate::AgentHardware(v) => {
            state.hardware = Some(v);
        },
        DataUpdate::AgentProcesses(v) => {
            state.processes = v;
        },
        DataUpdate::AgentPrograms(v) => {
            state.programs = v;
        },
        DataUpdate::AgentVulnerabilities(v) => {
            state.vulnerabilities = v;
        },
        DataUpdate::AgentLogs(v) => {
            state.agent_logs = v;
        },
        DataUpdate::AgentConfig(v) => {
            state.agent_config = Some(v);
        },
        DataUpdate::AlertHistory(v) => {
            state.alert_buckets = v;
        },
        DataUpdate::TopAgents(v) => {
            state.top_agents = v;
        },
        DataUpdate::Notification(m, l) => {
            state.notifications.push(Notification { message: m, level: l, timestamp: now });
        },
        DataUpdate::Error(m) => {
            state.error_message = Some(m);
        },
        DataUpdate::ErrorPopup { title, message } => {
            state.popup_mode = PopupMode::Error { title, message };
        },
    }
}

/// A chain of applications, in list order.
pub open spec fn drained(pre: AppState, us: Seq<DataUpdate>, now: u64, post: AppState) -> bool
    decreases us.len(),
{
    if us.len() == 0 {
        post == pre
    } else {
        exists|mid: AppState| #[trigger]
            applies(pre, us[0], now, mid) && drained(mid, us.drop_first(), now, post)
    }
}

/// Extending a chain by one application keeps it a chain.
proof fn lemma_drained_snoc(
    pre: AppState,
    us: Seq<DataUpdate>,
    now: u64,
    mid: AppState,
    u: DataUpdate,
    post: AppState,
)
    requires
        drained(pre, us, now, mid),
        applies(mid, u, now, post),
    ensures
        drained(pre, us.push(u), now, post),
    decreases us.len(),
{
    if us.len() == 0 {
        assert(us.push(u)[0] == u);
        assert(us.push(u).drop_first() =~= Seq::<DataUpdate>::empty());
        assert(drained(post, us.push(u).drop_first(), now, post));
    } else {
        let m1 = choose|m1: AppState| #[trigger]
            applies(pre, us[0], now, m1) && drained(m1, us.drop_first(), now, mid);
        lemma_drained_snoc(m1, us.drop_first(), now, mid, u, post);
        assert(us.push(u)[0] == us[0]);
        assert(us.push(u).drop_first() =~= us.drop_first().push(u));
    }
}

/// Drains a batch of messages: applies each in list order, which is the
/// order they were received.
pub fn drain_updates(state: &mut AppState, updates: Vec<DataUpdate>, now: u64)
    ensures
        drained(*old(state), updates@, now, *final(state)),
{
    let ghost pre = *state;
    let ghost all = updates@;
    let mut rest = updates;
    let ghost mut done: int = 0;
    proof {
        assert(all.take(0) =~= Seq::<DataUpdate>::empty());
    }
    while rest.len() > 0
        invariant
            0 <= done <= all.len(),
            rest@ =~= all.skip(done),
            drained(pre, all.take(done), now, *state),
        decreases rest@.len(),
    {
        let ghost mid = *state;
        let u = rest.remove(0);
        proof {
            assert(u == all[done]);
            assert(rest@ =~= all.skip(done + 1));
        }
        apply_update(state, u, now);
        proof {
            lemma_drained_snoc(pre, all.take(done), now, mid, u, *state);
            assert(all.take(done).push(u) =~= all.take(done + 1));
            done = done + 1;
        }
    }
    proof {
        assert(all.take(done) =~= all);
    }
}

/// A host answers the jump search: its name or its identifier holds the
/// query as a substring, case-folded.
pub open spec fn jump_match(a: WazuhAgent, q: Seq<char>) -> bool {
    contains_seq(lower(a.name@), lower(q)) || contains_seq(lower(a.id@), lower(q))
}

/// The positions of the hosts that answer the jump search, in table order;
/// an empty query matches nothing.
pub fn jump_matches(agents: &Vec<WazuhAgent>, input: &str) -> (r: Vec<usize>)
    ensures
        input@.len() == 0 ==> r@.len() == 0,
        input@.len() > 0 ==> {
            &&& forall|k: int|
                0 <= k < r@.len() ==> r@[k] < agents@.len() && jump_match(
                    agents@[#[trigger] r@[k] as int],
                    input@,
                )
            &&& forall|i: int|
                0 <= i < agents@.len() && jump_match(#[trigger] agents@[i], input@)
                    ==> r@.contains(i as usize)
            &&& forall|k1: int, k2: int| 0 <= k1 < k2 < r@.len() ==> r@[k1] < r@[k2]
        },
{
    let mut r: Vec<usize> = Vec::new();
    if input.is_empty() {
        return r;
    }
    let needle = lower_vec(&chars_of(input));
    let mut i: usize = 0;
    while i < agents.len()
        invariant
            i <= agents@.len(),
            needle@ == lower(input@),
            forall|k: int|
                0 <= k < r@.len() ==> r@[k] < i && jump_match(
                    agents@[#[trigger] r@[k] as int],
                    input@,
                ),
            forall|j: int|
                0 <= j < i && jump_match(#[trigger] agents@[j], input@) ==> r@.contains(
                    j as usize,
                ),
            forall|k1: int, k2: int| 0 <= k1 < k2 < r@.len() ==> r@[k1] < r@[k2],
        decreases agents@.len() - i,
    {
        let name_hay = lower_vec(&chars_of(agents[i].name.as_str()));
        let id_hay = lower_vec(&chars_of(agents[i].id.as_str()));
        let hit = contains_chars(&name_hay, &needle) || contains_chars(&id_hay, &needle);
        let ghost old_r = r@;
        if hit {
            r.push(i);
        }
        proof {
            if hit {
                assert(r@ == old_r.push(i as usize));
                assert(r@.contains(i as usize)) by {
                    assert(r@[r@.len() - 1] == i as usize);
                }
                assert forall|j: int|
                    0 <= j < i && jump_match(#[trigger] agents@[j], input@) implies r@.contains(
                    j as usize,
                ) by {
                    assert(old_r.contains(j as usize));
                    let idx = choose|idx: int| 0 <= idx < old_r.len() && old_r[idx] == (
                    j as usize);
                    assert(r@[idx] == j as usize);
                }
            }
        }
        i = i + 1;
    }
    r
}

/// The notifications still young enough to show: raised less than `max_age`
/// ticks ago, order kept.
pub open spec fn kept_notifications(s: Seq<Notification>, now: u64, max_age: u64) -> Seq<
    Notification,
>
    decreases s.len(),
{
    if s.len() == 0 {
        Seq::empty()
    } else {
        kept_notifications(s.drop_last(), now, max_age) + (if notification_fresh(
            s.last(),
            now,
            max_age,
        ) {
            seq![s.last()]
        } else {
            Seq::empty()
        })
    }
}

/// Raised less than `max_age` ticks ago; one stamped in the future counts as
/// fresh.
pub open spec fn notification_fresh(n: Notification, now: u64, max_age: u64) -> bool {
    if now >= n.timestamp {
        now - n.timestamp < max_age
    } else {
        true
    }
}

/// Drops the notifications older than `max_age` ticks, keeping the rest in
/// order.
pub fn prune_notifications(list: Vec<Notification>, now: u64, max_age: u64) -> (r: Vec<
    Notification,
>)
    ensures
        r@ == kept_notifications(list@, now, max_age),
{
    let ghost all = list@;
    let mut rest = list;
    let mut out: Vec<Notification> = Vec::new();
    let ghost mut done: int = 0;
    proof {
        assert(all.take(0) =~= Seq::<Notification>::empty());
        assert(out@ =~= kept_notifications(all.take(0), now, max_age));
    }
    while rest.len() > 0
        invariant
            0 <= done <= all.len(),
            rest@ =~= all.skip(done),
            out@ == kept_notifications(all.take(done), now, max_age),
        decreases rest@.len(),
    {
        let n = rest.remove(0);
        proof {
            assert(n == all[done]);
            assert(rest@ =~= all.skip(done + 1));
            assert(all.take(done + 1).drop_last() =~= all.take(done));
            assert(all.take(done + 1).last() == all[done]);
        }
        let fresh = if now >= n.timestamp {
            now - n.timestamp < max_age
        } else {
            true
        };
        if fresh {
            out.push(n);
        }
        proof {
            done = done + 1;
            assert(out@ =~= kept_notifications(all.take(done), now, max_age));
        }
    }
    proof {
        assert(all.take(done) =~= all);
    }
    out
}

/// Both messages replace the same slice of the state.
pub open spec fn same_slice(a: DataUpdate, b: DataUpdate) -> bool {
    match (a, b) {
        (DataUpdate::Agents(_), DataUpdate::Agents(_)) => true,
        (DataUpdate::Agents(_), DataUpdate::GroupAgents(_)) => true,
        (DataUpdate::GroupAgents(_), DataUpdate::Agents(_)) => true,
        (DataUpdate::GroupAgents(_), DataUpdate::GroupAgents(_)) => true,
        (DataUpdate::Groups(_), DataUpdate::Groups(_)) => true,
        (DataUpdate::SecurityEvents(_), DataUpdate::SecurityEvents(_)) => true,
        (DataUpdate::VulnSummary(_), DataUpdate::VulnSummary(_)) => true,
        (DataUpdate::ThreatStats(_), DataUpdate::ThreatStats(_)) => true,
        (DataUpdate::AgentHardware(_), DataUpdate::AgentHardware(_)) => true,
        (DataUpdate::AgentProcesses(_), DataUpdate::AgentProcesses(_)) => true,
        (DataUpdate::AgentPrograms(_), DataUpdate::AgentPrograms(_)) => true,
        (DataUpdate::AgentVulnerabilities(_), DataUpdate::AgentVulnerabilities(_)) => true,
        (DataUpdate::AgentLogs(_), DataUpdate::AgentLogs(_)) => true,
        (DataUpdate::AgentConfig(_), DataUpdate::AgentConfig(_)) => true,
        (DataUpdate::AlertHistory(_), DataUpdate::AlertHistory(_)) => true,
        (DataUpdate::TopAgents(_), DataUpdate::TopAgents(_)) => true,
        (DataUpdate::Error(_), DataUpdate::Error(_)) => true,
        (DataUpdate::ErrorPopup { .. }, DataUpdate::ErrorPopup { .. }) => true,
        _ => false,
    }
}

/// The slice a replacing message targets holds exactly its payload.
pub open spec fn payload_applied(u: DataUpdate, s: AppState) -> bool {
    match u {
        DataUpdate::Agents(v) => s.agents == v,
        DataUpdate::Groups(v) => s.groups == v,
        DataUpdate::GroupAgents(v) => s.agents == v,
        DataUpdate::SecurityEvents(v) => s.logs == v,
        DataUpdate::VulnSummary(v) => s.vuln_summary == v,
        DataUpdate::ThreatStats(v) => s.threat_stats == v,
        DataUpdate::AgentHardware(v) => s.hardware == Some(v),
        DataUpdate::AgentProcesses(v) => s.processes == v,
        DataUpdate::AgentPrograms(v) => s.programs == v,
        DataUpdate::AgentVulnerabilities(v) => s.vulnerabilities == v,
        DataUpdate::AgentLogs(v) => s.agent_logs == v,
        DataUpdate::AgentConfig(v) => s.agent_config == Some(v),
        DataUpdate::AlertHistory(v) => s.alert_buckets == v,
        DataUpdate::TopAgents(v) => s.top_agents == v,
        DataUpdate::Notification(_, _) => true,
        DataUpdate::Error(m) => s.error_message == Some(m),
        DataUpdate::ErrorPopup { title, message } => s.popup_mode == (PopupMode::Error {
            title,
            message,
        }),
    }
}

/// Law: the last writer wins. When two messages target the same slice and
/// are applied in order, the final state holds the second payload exactly —
/// never a merge of the two.
pub proof fn lemma_last_writer_wins(
    s0: AppState,
    a: DataUpdate,
    n1: u64,
    s1: AppState,
    b: DataUpdate,
    n2: u64,
    s2: AppState,
)
    requires
        applies(s0, a, n1, s1),
        applies(s1, b, n2, s2),
        same_slice(a, b),
    ensures
        payload_applied(b, s2),
{
}

} // verus!
