//! Domain computations: the status summary over a host page, the reshaping
//! of vulnerability search hits into the console's flat records, the severity
//! taxonomy, and the operator's time-window syntax.

use vstd::prelude::*;

verus! {

use vstd::string::StringExecFns;
use crate::models::{
    AgentSummary, OSVulnerabilityHit, OSVulnerabilityResponse, ThreatStats,
    WazuhAgent, WazuhVulnerabilitiesData, WazuhVulnerabilitiesResponse, WazuhVulnerabilityItem,
    WazuhVulnerabilityPackage,
};
use crate::query::{LogFilter, SeverityFilterMode};
use crate::text::{
    chars_eq_str, chars_of, dec_str, is_u32_literal, join_chars, joined_with, lower, lower_vec,
    parse_u32, string_of, sub_chars, trim_chars, trimmed, u32_literal_val, u32_to_dec,
};

/// How many hosts of a page carry a status.
pub open spec fn count_status(agents: Seq<WazuhAgent>, status: Seq<char>) -> int
    decreases agents.len(),
{
    if agents.len() == 0 {
        0
    } else {
        count_status(agents.drop_last(), status) + (if agents.last().status@ == status {
            1int
        } else {
            0
        })
    }
}

/// Counts a fetched host page by status bucket. Statuses outside the three
/// buckets are dropped from all of them; the total is the backend's count,
/// not the page's.
pub fn summarize_agents(agents: &Vec<WazuhAgent>, total: u32) -> (r: AgentSummary)
    requires
        agents@.len() <= u32::MAX,
    ensures
        r.total == total,
        r.active == count_status(agents@, "active"@),
        r.disconnected == count_status(agents@, "disconnected"@),
        r.never_connected == count_status(agents@, "never_connected"@),
{
    let mut active: u32 = 0;
    let mut disconnected: u32 = 0;
    let mut never_connected: u32 = 0;
    let mut i: usize = 0;
    while i < agents.len()
        invariant
            i <= agents@.len(),
            agents@.len() <= u32::MAX,
            active == count_status(agents@.take(i as int), "active"@),
            disconnected == count_status(agents@.take(i as int), "disconnected"@),
            never_connected == count_status(agents@.take(i as int), "never_connected"@),
            active <= i && disconnected <= i && never_connected <= i,
        decreases agents@.len() - i,
    {
        proof {
            assert(agents@.take(i + 1).drop_last() =~= agents@.take(i as int));
            assert(agents@.take(i + 1).last() == agents@[i as int]);
            reveal_strlit("active");
            reveal_strlit("disconnected");
            reveal_strlit("never_connected");
            assert("active"@.len() == 6);
            assert("disconnected"@.len() == 12);
            assert("never_connected"@.len() == 15);
        }
        let st = chars_of(agents[i].status.as_str());
        if chars_eq_str(&st, "active") {
            active = active + 1;
        } else if chars_eq_str(&st, "disconnected") {
            disconnected = disconnected + 1;
        } else if chars_eq_str(&st, "never_connected") {
            never_connected = never_connected + 1;
        }
        i = i + 1;
    }
    proof {
        assert(agents@.take(agents@.len() as int) =~= agents@);
    }
    AgentSummary { total, active, disconnected, never_connected }
}

/// One search hit, reshaped into the console's flat record: the identifier
/// and description from the nested vulnerability object, a missing severity
/// defaulted to a dash, the nested package carried over with empty-string
/// defaults, and the flat name and version fallbacks mirroring it.
pub open spec fn reshaped_item_ok(hit: OSVulnerabilityHit, item: WazuhVulnerabilityItem) -> bool {
    &&& item.cve == hit.vulnerability.id
    &&& (match hit.vulnerability.severity {
        Some(s) => item.severity == s,
        None => item.severity@ == "-"@,
    })
    &&& item.status is None
    &&& item.title == hit.vulnerability.description
    &&& (match hit.package {
        Some(p) => {
            &&& item.package is Some
            &&& (match p.name {
                Some(n) => item.package->0.name == n,
                None => item.package->0.name@ =~= Seq::<char>::empty(),
            })
            &&& (match p.version {
                Some(v) => item.package->0.version == v,
                None => item.package->0.version@ =~= Seq::<char>::empty(),
            })
            &&& item.package->0.architecture is None
            &&& item.name == p.name
            &&& item.version == p.version
        },
        None => item.package is None && item.name is None && item.version is None,
    })
}

/// Reshapes a vulnerability search response into the console's standard
/// shape: one flat record per hit, in hit order, and the backend's total.
/// Absent fields are defaulted, never an error.
pub fn reshape_vulnerabilities(resp: &OSVulnerabilityResponse) -> (r: WazuhVulnerabilitiesResponse)
    ensures
        r.data.total_affected_items == resp.hits.total.value,
        r.data.affected_items@.len() == resp.hits.hits@.len(),
        forall|i: int|
            0 <= i < resp.hits.hits@.len() ==> reshaped_item_ok(
                resp.hits.hits@[i].source,
                #[trigger] r.data.affected_items@[i],
            ),
{
    let mut items: Vec<WazuhVulnerabilityItem> = Vec::new();
    let mut i: usize = 0;
    while i < resp.hits.hits.len()
        invariant
            i <= resp.hits.hits@.len(),
            items@.len() == i,
            forall|k: int|
                0 <= k < i ==> reshaped_item_ok(resp.hits.hits@[k].source, #[trigger] items@[k]),
        decreases resp.hits.hits@.len() - i,
    {
        let src = &resp.hits.hits[i].source;
        let severity = match &src.vulnerability.severity {
            Some(s) => s.clone(),
            None => String::from_str("-"),
        };
        let title = match &src.vulnerability.description {
            Some(d) => Some(d.clone()),
            None => None,
        };
        let (package, name, version) = match &src.package {
            Some(p) => {
                let pkg_name = match &p.name {
                    Some(n) => n.clone(),
                    None => String::new(),
                };
                let pkg_version = match &p.version {
                    Some(v) => v.clone(),
                    None => String::new(),
                };
                let name = match &p.name {
                    Some(n) => Some(n.clone()),
                    None => None,
                };
                let version = match &p.version {
                    Some(v) => Some(v.clone()),
                    None => None,
                };
                (
                    Some(
                        WazuhVulnerabilityPackage {
                            name: pkg_name,
                            version: pkg_version,
                            architecture: None,
                        },
                    ),
                    name,
                    version,
                )
            },
            None => (None, None, None),
        };
        items.push(
            WazuhVulnerabilityItem {
                cve: src.vulnerability.id.clone(),
                severity,
                status: None,
                title,
                package,
                name,
                version,
            },
        );
        i = i + 1;
    }
    WazuhVulnerabilitiesResponse {
        data: WazuhVulnerabilitiesData {
            affected_items: items,
            total_affected_items: resp.hits.total.value,
        },
    }
}

/// The severity tier of an alert level.
pub open spec fn spec_severity_label(level: u64) -> Seq<char> {
    if level >= 15 {
        "Critical"@
    } else if level >= 12 {
        "High"@
    } else if level >= 7 {
        "Medium"@
    } else {
        "Low"@
    }
}

/// Names the severity tier of an alert level: fifteen and above is critical,
/// twelve to fourteen high, seven to eleven medium, the rest low.
pub fn get_severity_label(level: u64) -> (r: &'static str)
    ensures
        r@ == spec_severity_label(level),
{
    if level >= 15 {
        "Critical"
    } else if level >= 12 {
        "High"
    } else if level >= 7 {
        "Medium"
    } else {
        "Low"
    }
}

/// How many levels of a list fall inside an inclusive range.
pub open spec fn count_in_range(levels: Seq<u64>, lo: u64, hi: u64) -> int
    decreases levels.len(),
{
    if levels.len() == 0 {
        0
    } else {
        count_in_range(levels.drop_last(), lo, hi) + (if lo <= levels.last() <= hi {
            1int
        } else {
            0
        })
    }
}

/// Counts alert levels by severity bucket.
pub fn threat_stats_of(levels: &Vec<u64>) -> (r: ThreatStats)
    requires
        levels@.len() <= u32::MAX,
    ensures
        r.critical == count_in_range(levels@, 15, u64::MAX),
        r.high == count_in_range(levels@, 12, 14),
        r.medium == count_in_range(levels@, 7, 11),
        r.low == count_in_range(levels@, 0, 6),
{
    let mut stats = ThreatStats::default();
    let mut i: usize = 0;
    while i < levels.len()
        invariant
            i <= levels@.len(),
            levels@.len() <= u32::MAX,
            stats.critical == count_in_range(levels@.take(i as int), 15, u64::MAX),
            stats.high == count_in_range(levels@.take(i as int), 12, 14),
            stats.medium == count_in_range(levels@.take(i as int), 7, 11),
            stats.low == count_in_range(levels@.take(i as int), 0, 6),
            stats.critical <= i && stats.high <= i && stats.medium <= i && stats.low <= i,
        decreases levels@.len() - i,
    {
        proof {
            assert(levels@.take(i + 1).drop_last() =~= levels@.take(i as int));
            assert(levels@.take(i + 1).last() == levels@[i as int]);
        }
        let level = levels[i];
        if level >= 15 {
            stats.critical = stats.critical + 1;
        } else if level >= 12 {
            stats.high = stats.high + 1;
        } else if level >= 7 {
            stats.medium = stats.medium + 1;
        } else {
            stats.low = stats.low + 1;
        }
        i = i + 1;
    }
    proof {
        assert(levels@.take(levels@.len() as int) =~= levels@);
    }
    stats
}

/// The minute key of a timestamp, for bucketing alerts by minute: the five
/// characters after the date part, when the text is long enough.
pub open spec fn spec_minute_key(ts: Seq<char>) -> Option<Seq<char>> {
    if ts.len() >= 16 {
        Some(ts.subrange(11, 16))
    } else {
        None
    }
}

/// The minute key of a timestamp.
pub fn minute_bucket_key(ts: &str) -> (r: Option<String>)
    ensures
        match r {
            Some(k) => spec_minute_key(ts@) == Some(k@),
            None => spec_minute_key(ts@) is None,
        },
{
    let v = chars_of(ts);
    if v.len() >= 16 {
        Some(string_of(&sub_chars(&v, 11, 16)))
    } else {
        None
    }
}

/// The operator's time-window syntax, normalised: trimmed and case-folded,
/// split into a count and a unit suffix in minutes.
pub open spec fn interval_norm(s: Seq<char>) -> Seq<char> {
    lower(trimmed(s))
}

/// The count text and the minutes-per-unit of a normalised window: `m`, `h`
/// and `d` suffixes, minutes by default.
pub open spec fn interval_parts(s: Seq<char>) -> (Seq<char>, u32) {
    if s.len() > 0 && s.last() == 'm' {
        (s.drop_last(), 1u32)
    } else if s.len() > 0 && s.last() == 'h' {
        (s.drop_last(), 60u32)
    } else if s.len() > 0 && s.last() == 'd' {
        (s.drop_last(), 1440u32)
    } else {
        (s, 1u32)
    }
}

/// Parses the operator's time window into minutes. Empty input asks for no
/// change; a malformed count, or one whose minutes overflow the counter, is
/// rejected.
#[verifier::rlimit(50)]
pub fn parse_interval(input: &str) -> (r: Result<Option<u32>, String>)
    ensures
        ({
            let norm = interval_norm(input@);
            let parts = interval_parts(norm);
            match r {
                Ok(opt) => match opt {
                    None => norm.len() == 0,
                    Some(mins) => {
                        &&& norm.len() > 0
                        &&& is_u32_literal(parts.0)
                        &&& mins == u32_literal_val(parts.0) * parts.1
                    },
                },
                Err(e) => {
                    &&& norm.len() > 0
                    &&& (!is_u32_literal(parts.0) || u32_literal_val(parts.0) * parts.1
                        > u32::MAX)
                    &&& e@ == "Invalid number format"@
                },
            }
        }),
{
    let t = trim_chars(&chars_of(input));
    let norm = lower_vec(&t);
    let n = norm.len();
    if n == 0 {
        return Ok(None);
    }
    let last = norm[n - 1];
    let (digits, unit): (Vec<char>, u32) = if last == 'm' {
        (sub_chars(&norm, 0, n - 1), 1)
    } else if last == 'h' {
        (sub_chars(&norm, 0, n - 1), 60)
    } else if last == 'd' {
        (sub_chars(&norm, 0, n - 1), 1440)
    } else {
        (sub_chars(&norm, 0, n), 1)
    };
    proof {
        assert(norm@.subrange(0, n - 1) =~= norm@.drop_last());
        assert(norm@.subrange(0, n as int) =~= norm@);
        assert(digits@ == interval_parts(norm@).0);
        assert(unit == interval_parts(norm@).1);
    }
    match parse_u32(&digits) {
        Some(val) => {
            let total: u64 = if unit == 1 {
                val as u64
            } else if unit == 60 {
                (val as u64) * 60
            } else {
                (val as u64) * 1440
            };
            proof {
                assert(unit == 1 || unit == 60 || unit == 1440);
                assert(total == (val as nat) * (unit as nat)) by {
                    if unit == 1 {
                        assert((val as nat) * 1 == val as nat);
                    }
                }
            }
            if total > u32::MAX as u64 {
                Err(String::from_str("Invalid number format"))
            } else {
                Ok(Some(total as u32))
            }
        },
        None => Err(String::from_str("Invalid number format")),
    }
}

/// A minute count the way the operator types it: whole days as `d`, whole
/// hours as `h`, anything else as `m`.
pub open spec fn interval_text(mins: u32) -> Seq<char> {
    if mins >= 1440 && mins % 1440 == 0 {
        dec_str((mins / 1440) as nat) + "d"@
    } else if mins >= 60 && mins % 60 == 0 {
        dec_str((mins / 60) as nat) + "h"@
    } else {
        dec_str(mins as nat) + "m"@
    }
}

/// Renders a minute count the way the operator types it.
pub fn format_interval(mins: u32) -> (r: String)
    ensures
        r@ == interval_text(mins),
{
    if mins >= 1440 && mins % 1440 == 0 {
        let mut v = u32_to_dec(mins / 1440);
        v.push('d');
        proof {
            reveal_strlit("d");
            assert("d"@ =~= seq!['d']);
            assert(v@ =~= dec_str((mins / 1440) as nat) + "d"@);
        }
        string_of(&v)
    } else if mins >= 60 && mins % 60 == 0 {
        let mut v = u32_to_dec(mins / 60);
        v.push('h');
        proof {
            reveal_strlit("h");
            assert("h"@ =~= seq!['h']);
            assert(v@ =~= dec_str((mins / 60) as nat) + "h"@);
        }
        string_of(&v)
    } else {
        let mut v = u32_to_dec(mins);
        v.push('m');
        proof {
            reveal_strlit("m");
            assert("m"@ =~= seq!['m']);
            assert(v@ =~= dec_str(mins as nat) + "m"@);
        }
        string_of(&v)
    }
}

/// The pieces of the filter banner over the event table: the time window,
/// then the severity bound (left out for a minimum of zero), then one piece
/// per non-empty substring filter.
pub open spec fn filter_status_parts(mins: u32, f: LogFilter) -> Seq<Seq<char>> {
    seq!["Last "@ + interval_text(mins)] + (match f.mode {
        SeverityFilterMode::Min => if f.val1 > 0 {
            seq!["Level \u{2265}"@ + dec_str(f.val1 as nat)]
        } else {
            Seq::empty()
        },
        SeverityFilterMode::Max => seq!["Level \u{2264}"@ + dec_str(f.val1 as nat)],
        SeverityFilterMode::Exact => seq!["Level ="@ + dec_str(f.val1 as nat)],
        SeverityFilterMode::Range => seq![
            "Level "@ + dec_str(f.val1 as nat) + "-"@ + dec_str(f.val2 as nat),
        ],
    }) + (if f.agent_filter@.len() > 0 {
        seq!["Agent:"@ + f.agent_filter@]
    } else {
        Seq::empty()
    }) + (if f.rule_id_filter@.len() > 0 {
        seq!["Rule:"@ + f.rule_id_filter@]
    } else {
        Seq::empty()
    }) + (if f.description_filter@.len() > 0 {
        seq!["\""@ + f.description_filter@ + "\""@]
    } else {
        Seq::empty()
    })
}

/// The filter banner: the pieces joined with bars, in brackets.
pub open spec fn spec_filter_status(mins: u32, f: LogFilter) -> Seq<char> {
    "["@ + joined_with(filter_status_parts(mins, f), " | "@) + "]"@
}

/// Builds the filter banner over the event table.
pub fn build_filter_status(mins: u32, f: &LogFilter) -> (r: String)
    ensures
        r@ == spec_filter_status(mins, *f),
{
    let mut parts: Vec<Vec<char>> = Vec::new();

    let mut window = chars_of("Last ");
    let mut itext = chars_of(format_interval(mins).as_str());
    window.append(&mut itext);
    parts.push(window);
    let ghost p0 = parts.deep_view();
    proof {
        assert(p0 =~~= seq!["Last "@ + interval_text(mins)]);
    }

    match f.mode {
        SeverityFilterMode::Min => {
            if f.val1 > 0 {
                let mut piece = chars_of("Level \u{2265}");
                let mut num = u32_to_dec(f.val1);
                piece.append(&mut num);
                parts.push(piece);
            }
        },
        SeverityFilterMode::Max => {
            let mut piece = chars_of("Level \u{2264}");
            let mut num = u32_to_dec(f.val1);
            piece.append(&mut num);
            parts.push(piece);
        },
        SeverityFilterMode::Exact => {
            let mut piece = chars_of("Level =");
            let mut num = u32_to_dec(f.val1);
            piece.append(&mut num);
            parts.push(piece);
        },
        SeverityFilterMode::Range => {
            let mut piece = chars_of("Level ");
            let mut lo = u32_to_dec(f.val1);
            piece.append(&mut lo);
            let mut dash = chars_of("-");
            piece.append(&mut dash);
            let mut hi = u32_to_dec(f.val2);
            piece.append(&mut hi);
            parts.push(piece);
        },
    }
    let ghost p1 = parts.deep_view();
    proof {
        assert(p1 =~~= p0 + (match f.mode {
            SeverityFilterMode::Min => if f.val1 > 0 {
                seq!["Level \u{2265}"@ + dec_str(f.val1 as nat)]
            } else {
                Seq::empty()
            },
            SeverityFilterMode::Max => seq!["Level \u{2264}"@ + dec_str(f.val1 as nat)],
            SeverityFilterMode::Exact => seq!["Level ="@ + dec_str(f.val1 as nat)],
            SeverityFilterMode::Range => seq![
                "Level "@ + dec_str(f.val1 as nat) + "-"@ + dec_str(f.val2 as nat),
            ],
        }));
    }

    if !f.agent_filter.as_str().is_empty() {
        let mut piece = chars_of("Agent:");
        let mut v = chars_of(f.agent_filter.as_str());
        piece.append(&mut v);
        parts.push(piece);
    }
    let ghost p2 = parts.deep_view();
    proof {
        assert(p2 =~~= p1 + (if f.agent_filter@.len() > 0 {
            seq!["Agent:"@ + f.agent_filter@]
        } else {
            Seq::empty()
        }));
    }

    if !f.rule_id_filter.as_str().is_empty() {
        let mut piece = chars_of("Rule:");
        let mut v = chars_of(f.rule_id_filter.as_str());
        piece.append(&mut v);
        parts.push(piece);
    }
    let ghost p3 = parts.deep_view();
    proof {
        assert(p3 =~~= p2 + (if f.rule_id_filter@.len() > 0 {
            seq!["Rule:"@ + f.rule_id_filter@]
        } else {
            Seq::empty()
        }));
    }

    if !f.description_filter.as_str().is_empty() {
        let mut piece = chars_of("\"");
        let mut v = chars_of(f.description_filter.as_str());
        piece.append(&mut v);
        let mut quote = chars_of("\"");
        piece.append(&mut quote);
        parts.push(piece);
    }
    proof {
        assert(parts.deep_view() =~~= filter_status_parts(mins, *f));
    }

    let joined = join_chars(&parts, " | ");
    let mut out = chars_of("[");
    let mut mid = joined;
    out.append(&mut mid);
    let mut close = chars_of("]");
    out.append(&mut close);
    proof {
        assert(out@ =~= spec_filter_status(mins, *f));
    }
    string_of(&out)
}


} // verus!
