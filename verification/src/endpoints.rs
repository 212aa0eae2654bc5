//! The backend's HTTP surface: every path the console calls, built
//! character-exactly, plus the component-to-section alias table of the
//! host-configuration endpoint.

use vstd::prelude::*;

verus! {

use vstd::string::StringExecFns;
use crate::text::{chars_eq_str, chars_of, dec_str, string_of, u32_to_dec};

/// The section that answers for a configuration component: a fixed alias
/// table, identity for every other component.
pub open spec fn spec_section(component: Seq<char>) -> Seq<char> {
    if component == "logcollector"@ {
        "localfile"@
    } else if component == "agent"@ {
        "client"@
    } else if component == "analysis"@ {
        "global"@
    } else {
        component
    }
}

/// Maps a configuration component to its section.
pub fn section_for_component(component: &str) -> (r: String)
    ensures
        r@ == spec_section(component@),
{
    let c = chars_of(component);
    if chars_eq_str(&c, "logcollector") {
        String::from_str("localfile")
    } else if chars_eq_str(&c, "agent") {
        String::from_str("client")
    } else if chars_eq_str(&c, "analysis") {
        String::from_str("global")
    } else {
        String::from_str(component)
    }
}

/// A list joined with commas: empty for no items, the items themselves with
/// one comma between each pair.
pub open spec fn joined_commas(parts: Seq<Seq<char>>) -> Seq<char>
    decreases parts.len(),
{
    if parts.len() == 0 {
        Seq::empty()
    } else if parts.len() == 1 {
        parts[0]
    } else {
        joined_commas(parts.drop_last()) + seq![','] + parts.last()
    }
}

/// Joins identifiers with commas.
pub fn join_commas(ids: &Vec<String>) -> (r: String)
    ensures
        r@ == joined_commas(ids.deep_view()),
{
    let mut out: Vec<char> = Vec::new();
    let mut i: usize = 0;
    while i < ids.len()
        invariant
            i <= ids@.len(),
            ids.deep_view().len() == ids@.len(),
            forall|k: int| 0 <= k < ids@.len() ==> (#[trigger] ids@[k])@ == ids.deep_view()[k],
            out@ == joined_commas(ids.deep_view().take(i as int)),
        decreases ids@.len() - i,
    {
        if i > 0 {
            out.push(',');
        }
        let mut part = chars_of(ids[i].as_str());
        out.append(&mut part);
        i = i + 1;
        proof {
            let t = ids.deep_view().take(i as int);
            assert(t.drop_last() =~= ids.deep_view().take(i - 1));
            assert(out@ =~= joined_commas(t));
        }
    }
    proof {
        assert(ids.deep_view().take(ids@.len() as int) =~= ids.deep_view());
    }
    string_of(&out)
}

/// The credential-exchange path.
pub open spec fn spec_auth_url(base: Seq<char>) -> Seq<char> {
    base + "/security/user/authenticate"@
}

pub fn auth_url(base: &str) -> (r: String)
    ensures
        r@ == spec_auth_url(base@),
{
    let mut u = String::from_str(base);
    u.append("/security/user/authenticate");
    u
}

/// The paged host list, with the group filter kept off for the pseudo-group
/// naming all hosts.
pub open spec fn spec_agents_url(
    base: Seq<char>,
    group: Option<Seq<char>>,
    offset: u32,
    limit: u32,
) -> Seq<char> {
    let u = base + "/agents?offset="@ + dec_str(offset as nat) + "&limit="@ + dec_str(
        limit as nat,
    );
    match group {
        Some(g) => if g != "all"@ {
            u + "&group="@ + g
        } else {
            u
        },
        None => u,
    }
}

/// A group reference, as an optional character sequence.
pub open spec fn opt_group(o: Option<&str>) -> Option<Seq<char>> {
    match o {
        Some(s) => Some(s@),
        None => None,
    }
}

pub fn agents_url(base: &str, group: Option<&str>, offset: u32, limit: u32) -> (r: String)
    ensures
        r@ == spec_agents_url(base@, opt_group(group), offset, limit),
{
    let mut u = String::from_str(base);
    u.append("/agents?offset=");
    u.append(string_of(&u32_to_dec(offset)).as_str());
    u.append("&limit=");
    u.append(string_of(&u32_to_dec(limit)).as_str());
    match group {
        Some(g) => {
            let gc = chars_of(g);
            if !chars_eq_str(&gc, "all") {
                u.append("&group=");
                u.append(g);
            }
        },
        None => {},
    }
    u
}

/// The group list.
pub open spec fn spec_groups_url(base: Seq<char>) -> Seq<char> {
    base + "/groups"@
}

pub fn groups_url(base: &str) -> (r: String)
    ensures
        r@ == spec_groups_url(base@),
{
    let mut u = String::from_str(base);
    u.append("/groups");
    u
}

/// Group membership: assignment and removal share the path; the method
/// decides.
pub open spec fn spec_group_agents_url(
    base: Seq<char>,
    group_id: Seq<char>,
    ids: Seq<Seq<char>>,
) -> Seq<char> {
    base + "/groups/"@ + group_id + "/agents?agents_list="@ + joined_commas(ids)
}

pub fn group_agents_url(base: &str, group_id: &str, ids: &Vec<String>) -> (r: String)
    ensures
        r@ == spec_group_agents_url(base@, group_id@, ids.deep_view()),
{
    let mut u = String::from_str(base);
    u.append("/groups/");
    u.append(group_id);
    u.append("/agents?agents_list=");
    u.append(join_commas(ids).as_str());
    u
}

/// Group deletion.
pub open spec fn spec_delete_group_url(base: Seq<char>, group_id: Seq<char>) -> Seq<char> {
    base + "/groups?groups_list="@ + group_id
}

pub fn delete_group_url(base: &str, group_id: &str) -> (r: String)
    ensures
        r@ == spec_delete_group_url(base@, group_id@),
{
    let mut u = String::from_str(base);
    u.append("/groups?groups_list=");
    u.append(group_id);
    u
}

/// The system-inventory endpoints: hardware, processes and installed
/// packages share the path shape.
pub open spec fn spec_syscollector_url(
    base: Seq<char>,
    agent_id: Seq<char>,
    kind: Seq<char>,
) -> Seq<char> {
    base + "/syscollector/"@ + agent_id + "/"@ + kind
}

pub fn syscollector_url(base: &str, agent_id: &str, kind: &str) -> (r: String)
    ensures
        r@ == spec_syscollector_url(base@, agent_id@, kind@),
{
    let mut u = String::from_str(base);
    u.append("/syscollector/");
    u.append(agent_id);
    u.append("/");
    u.append(kind);
    u
}

/// Host restart for a set of identifiers.
pub open spec fn spec_restart_url(base: Seq<char>, ids: Seq<Seq<char>>) -> Seq<char> {
    base + "/agents/restart?agents_list="@ + joined_commas(ids)
}

pub fn restart_url(base: &str, ids: &Vec<String>) -> (r: String)
    ensures
        r@ == spec_restart_url(base@, ids.deep_view()),
{
    let mut u = String::from_str(base);
    u.append("/agents/restart?agents_list=");
    u.append(join_commas(ids).as_str());
    u
}

/// Host upgrade for a set of identifiers.
pub open spec fn spec_upgrade_url(base: Seq<char>, ids: Seq<Seq<char>>) -> Seq<char> {
    base + "/agents/upgrade?agents_list="@ + joined_commas(ids)
}

pub fn upgrade_url(base: &str, ids: &Vec<String>) -> (r: String)
    ensures
        r@ == spec_upgrade_url(base@, ids.deep_view()),
{
    let mut u = String::from_str(base);
    u.append("/agents/upgrade?agents_list=");
    u.append(join_commas(ids).as_str());
    u
}

/// One host's configuration: the component in the path, then its section by
/// the alias table.
pub open spec fn spec_config_url(
    base: Seq<char>,
    agent_id: Seq<char>,
    component: Seq<char>,
) -> Seq<char> {
    base + "/agents/"@ + agent_id + "/config/"@ + component + "/"@ + spec_section(component)
}

pub fn config_url(base: &str, agent_id: &str, component: &str) -> (r: String)
    ensures
        r@ == spec_config_url(base@, agent_id@, component@),
{
    let mut u = String::from_str(base);
    u.append("/agents/");
    u.append(agent_id);
    u.append("/config/");
    u.append(component);
    u.append("/");
    u.append(section_for_component(component).as_str());
    u
}

/// The alert search of the analytics endpoint.
pub open spec fn spec_alerts_search_url(os_base: Seq<char>) -> Seq<char> {
    os_base + "/wazuh-alerts-*/_search"@
}

pub fn alerts_search_url(os_base: &str) -> (r: String)
    ensures
        r@ == spec_alerts_search_url(os_base@),
{
    let mut u = String::from_str(os_base);
    u.append("/wazuh-alerts-*/_search");
    u
}

/// The vulnerability-state search of the analytics endpoint.
pub open spec fn spec_vuln_search_url(os_base: Seq<char>) -> Seq<char> {
    os_base + "/wazuh-states-vulnerabilities*/_search"@
}

pub fn vuln_search_url(os_base: &str) -> (r: String)
    ensures
        r@ == spec_vuln_search_url(os_base@),
{
    let mut u = String::from_str(os_base);
    u.append("/wazuh-states-vulnerabilities*/_search");
    u
}

} // verus!
