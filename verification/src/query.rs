//! The search-query builder: turns a severity/agent/rule/text filter and a
//! relative time window into the structured query document the search engine
//! expects, AND-combined and paged.

use vstd::prelude::*;

verus! {

use vstd::string::StringExecFns;
use crate::json::{is_str, obj1_key, obj1_val, Json};
use crate::text::{
    chars_of, dec_str, find_char, find_char_exec, lemma_find_char_in_range, lower, lower_vec,
    string_of, sub_chars, trim_chars, trimmed, u32_to_dec,
};

/// How the severity bound of a log filter reads.
#[derive(Debug, PartialEq, Eq, Structural, Clone, Copy)]
pub enum SeverityFilterMode {
    Min,
    Max,
    Exact,
    Range,
}

/// The operator's log filter: a severity comparison plus independent optional
/// substring filters.
#[derive(Debug, Clone)]
pub struct LogFilter {
    pub mode: SeverityFilterMode,
    pub val1: u32,
    pub val2: u32,
    pub agent_filter: String,
    pub rule_id_filter: String,
    pub description_filter: String,
    pub mitre_filter: String,
}

impl Default for LogFilter {
    /// Everything passes: levels zero through fifteen, no substring filters.
    fn default() -> (r: Self)
        ensures
            r.mode == SeverityFilterMode::Min,
            r.val1 == 0,
            r.val2 == 15,
            r.agent_filter@.len() == 0,
            r.rule_id_filter@.len() == 0,
            r.description_filter@.len() == 0,
            r.mitre_filter@.len() == 0,
    {
        LogFilter {
            mode: SeverityFilterMode::Min,
            val1: 0,
            val2: 15,
            agent_filter: String::new(),
            rule_id_filter: String::new(),
            description_filter: String::new(),
            mitre_filter: String::new(),
        }
    }
}

/// An object of exactly one field.
fn obj1(k: &str, v: Json) -> (r: Json)
    ensures
        obj1_key(r, k@),
        obj1_val(r) == v,
{
    let mut fs: Vec<(String, Json)> = Vec::new();
    fs.push((String::from_str(k), v));
    Json::Obj(fs)
}

/// `j` is an object of exactly the two fields `k1` and `k2`, in that order.
pub open spec fn obj2_ok(j: Json, k1: Seq<char>, v1: Json, k2: Seq<char>, v2: Json) -> bool {
    &&& j is Obj
    &&& j->Obj_0@.len() == 2
    &&& j->Obj_0@[0].0@ == k1
    &&& j->Obj_0@[0].1 == v1
    &&& j->Obj_0@[1].0@ == k2
    &&& j->Obj_0@[1].1 == v2
}

/// An object of exactly two fields.
fn obj2(k1: &str, v1: Json, k2: &str, v2: Json) -> (r: Json)
    ensures
        obj2_ok(r, k1@, v1, k2@, v2),
{
    let mut fs: Vec<(String, Json)> = Vec::new();
    fs.push((String::from_str(k1), v1));
    fs.push((String::from_str(k2), v2));
    Json::Obj(fs)
}

/// A JSON string.
fn str_json(s: &str) -> (r: Json)
    ensures
        is_str(r, s@),
{
    Json::Str(String::from_str(s))
}

/// `{"term": {field: value}}`: an exact match on one field.
pub open spec fn term_ok(j: Json, field: Seq<char>, v: Json) -> bool {
    &&& obj1_key(j, "term"@)
    &&& obj1_key(obj1_val(j), field)
    &&& obj1_val(obj1_val(j)) == v
}

/// `{"range": {field: {"gte": v}}}`: a one-sided lower bound.
pub open spec fn range_min_ok(j: Json, field: Seq<char>, v: u64) -> bool {
    &&& obj1_key(j, "range"@)
    &&& obj1_key(obj1_val(j), field)
    &&& obj1_key(obj1_val(obj1_val(j)), "gte"@)
    &&& obj1_val(obj1_val(obj1_val(j))) == Json::UInt(v)
}

/// `{"range": {field: {"lte": v}}}`: a one-sided upper bound.
pub open spec fn range_max_ok(j: Json, field: Seq<char>, v: u64) -> bool {
    &&& obj1_key(j, "range"@)
    &&& obj1_key(obj1_val(j), field)
    &&& obj1_key(obj1_val(obj1_val(j)), "lte"@)
    &&& obj1_val(obj1_val(obj1_val(j))) == Json::UInt(v)
}

/// `{"range": {field: {"gte": lo, "lte": hi}}}`: a two-sided bound.
pub open spec fn range_between_ok(j: Json, field: Seq<char>, lo: u64, hi: u64) -> bool {
    &&& obj1_key(j, "range"@)
    &&& obj1_key(obj1_val(j), field)
    &&& obj2_ok(obj1_val(obj1_val(j)), "gte"@, Json::UInt(lo), "lte"@, Json::UInt(hi))
}

/// The severity clause a filter compiles to: Min and Max give one-sided
/// bounds only, Exact an exact match, Range a two-sided bound, all on the
/// rule level field.
pub open spec fn severity_clause_ok(j: Json, mode: SeverityFilterMode, v1: u32, v2: u32) -> bool {
    match mode {
        SeverityFilterMode::Min => range_min_ok(j, "rule.level"@, v1 as u64),
        SeverityFilterMode::Max => range_max_ok(j, "rule.level"@, v1 as u64),
        SeverityFilterMode::Exact => term_ok(j, "rule.level"@, Json::UInt(v1 as u64)),
        SeverityFilterMode::Range => range_between_ok(j, "rule.level"@, v1 as u64, v2 as u64),
    }
}

/// Compiles the severity comparison of a filter.
pub fn severity_clause(f: &LogFilter) -> (r: Json)
    ensures
        severity_clause_ok(r, f.mode, f.val1, f.val2),
{
    match f.mode {
        SeverityFilterMode::Min => obj1(
            "range",
            obj1("rule.level", obj1("gte", Json::UInt(f.val1 as u64))),
        ),
        SeverityFilterMode::Max => obj1(
            "range",
            obj1("rule.level", obj1("lte", Json::UInt(f.val1 as u64))),
        ),
        SeverityFilterMode::Exact => obj1("term", obj1("rule.level", Json::UInt(f.val1 as u64))),
        SeverityFilterMode::Range => obj1(
            "range",
            obj1(
                "rule.level",
                obj2("gte", Json::UInt(f.val1 as u64), "lte", Json::UInt(f.val2 as u64)),
            ),
        ),
    }
}

/// The case-insensitive wildcard pattern for a substring: `*substring*`,
/// case-folded.
pub open spec fn wc_pattern(s: Seq<char>) -> Seq<char> {
    seq!['*'] + lower(s) + seq!['*']
}

/// `{"wildcard": {field: {"value": pattern, "case_insensitive": true}}}`.
pub open spec fn wildcard_ci_ok(j: Json, field: Seq<char>, pattern: Seq<char>) -> bool {
    &&& obj1_key(j, "wildcard"@)
    &&& obj1_key(obj1_val(j), field)
    &&& {
        let inner = obj1_val(obj1_val(j));
        &&& inner is Obj
        &&& inner->Obj_0@.len() == 2
        &&& inner->Obj_0@[0].0@ == "value"@
        &&& is_str(inner->Obj_0@[0].1, pattern)
        &&& inner->Obj_0@[1].0@ == "case_insensitive"@
        &&& inner->Obj_0@[1].1 == Json::Bool(true)
    }
}

/// Builds the `*substring*` pattern, case-folded.
fn wc_pattern_exec(s: &str) -> (r: String)
    ensures
        r@ == wc_pattern(s@),
{
    let mut v: Vec<char> = Vec::new();
    v.push('*');
    let mut body = lower_vec(&chars_of(s));
    v.append(&mut body);
    v.push('*');
    proof {
        assert(v@ =~= wc_pattern(s@));
    }
    string_of(&v)
}

/// A case-insensitive wildcard clause on one field.
fn wildcard_ci(field: &str, sub: &str) -> (r: Json)
    ensures
        wildcard_ci_ok(r, field@, wc_pattern(sub@)),
{
    let pattern = wc_pattern_exec(sub);
    obj1("wildcard", obj1(field, obj2("value", Json::Str(pattern), "case_insensitive", Json::Bool(true))))
}

/// The pieces of a comma-separated list, commas removed, empties kept.
pub open spec fn split_commas(s: Seq<char>) -> Seq<Seq<char>>
    decreases s.len(),
        via split_commas_decreases
{
    match find_char(s, ',') {
        None => seq![s],
        Some(k) => seq![s.take(k as int)] + split_commas(s.skip(k as int + 1)),
    }
}

#[via_fn]
proof fn split_commas_decreases(s: Seq<char>) {
    if find_char(s, ',') is Some {
        lemma_find_char_in_range(s, ',', 0);
    }
}

/// Splits on commas.
fn split_commas_exec(v: &Vec<char>) -> (r: Vec<Vec<char>>)
    ensures
        r.deep_view() == split_commas(v@),
    decreases v@.len(),
{
    let n = v.len();
    match find_char_exec(v, ',') {
        None => {
            let mut r: Vec<Vec<char>> = Vec::new();
            let whole = sub_chars(v, 0, n);
            proof {
                assert(whole@ =~= v@);
            }
            r.push(whole);
            proof {
                assert(r.deep_view() =~~= split_commas(v@));
            }
            r
        },
        Some(k) => {
            proof {
                lemma_find_char_in_range(v@, ',', 0);
            }
            let head = sub_chars(v, 0, k);
            let rest = sub_chars(v, k + 1, n);
            let mut tail = split_commas_exec(&rest);
            let mut r: Vec<Vec<char>> = Vec::new();
            proof {
                assert(head@ =~= v@.take(k as int));
                assert(rest@ =~= v@.skip(k as int + 1));
            }
            r.push(head);
            r.append(&mut tail);
            proof {
                assert(r.deep_view() =~~= split_commas(v@));
            }
            r
        },
    }
}

/// The rule-identifier clause: a comma-separated list compiles to a
/// multi-value exact match over the trimmed pieces, a `*`-containing value to
/// a wildcard match, anything else to an exact match.
pub open spec fn rule_clause_ok(j: Json, rid: Seq<char>) -> bool {
    if find_char(rid, ',') is Some {
        &&& obj1_key(j, "terms"@)
        &&& obj1_key(obj1_val(j), "rule.id"@)
        &&& {
            let vals = obj1_val(obj1_val(j));
            &&& vals is Arr
            &&& vals->Arr_0@.len() == split_commas(rid).len()
            &&& forall|i: int|
                0 <= i < split_commas(rid).len() ==> is_str(
                    #[trigger] vals->Arr_0@[i],
                    trimmed(split_commas(rid)[i]),
                )
        }
    } else if find_char(rid, '*') is Some {
        &&& obj1_key(j, "wildcard"@)
        &&& obj1_key(obj1_val(j), "rule.id"@)
        &&& obj1_key(obj1_val(obj1_val(j)), "value"@)
        &&& is_str(obj1_val(obj1_val(obj1_val(j))), rid)
    } else {
        &&& obj1_key(j, "term"@)
        &&& obj1_key(obj1_val(j), "rule.id"@)
        &&& is_str(obj1_val(obj1_val(j)), rid)
    }
}

/// Compiles the rule-identifier filter.
pub fn rule_clause(rid: &str) -> (r: Json)
    ensures
        rule_clause_ok(r, rid@),
{
    let rv = chars_of(rid);
    match find_char_exec(&rv, ',') {
        Some(_) => {
            let parts = split_commas_exec(&rv);
            let mut vals: Vec<Json> = Vec::new();
            let mut i: usize = 0;
            while i < parts.len()
                invariant
                    i <= parts@.len(),
                    parts.deep_view() == split_commas(rv@),
                    vals@.len() == i,
                    forall|k: int|
                        0 <= k < i ==> is_str(#[trigger] vals@[k], trimmed(split_commas(rv@)[k])),
                decreases parts@.len() - i,
            {
                proof {
                    assert(parts@[i as int]@ == parts.deep_view()[i as int]);
                }
                let piece = trim_chars(&parts[i]);
                vals.push(Json::Str(string_of(&piece)));
                i = i + 1;
            }
            obj1("terms", obj1("rule.id", Json::Arr(vals)))
        },
        None => {
            match find_char_exec(&rv, '*') {
                Some(_) => obj1(
                    "wildcard",
                    obj1("rule.id", obj1("value", str_json(rid))),
                ),
                None => obj1("term", obj1("rule.id", str_json(rid))),
            }
        },
    }
}

/// `{"match": {"rule.description": {"query": text, "operator": "and"}}}`: a
/// full-text match whose tokens are AND-combined.
pub open spec fn description_clause_ok(j: Json, text: Seq<char>) -> bool {
    &&& obj1_key(j, "match"@)
    &&& obj1_key(obj1_val(j), "rule.description"@)
    &&& {
        let inner = obj1_val(obj1_val(j));
        &&& inner is Obj
        &&& inner->Obj_0@.len() == 2
        &&& inner->Obj_0@[0].0@ == "query"@
        &&& is_str(inner->Obj_0@[0].1, text)
        &&& inner->Obj_0@[1].0@ == "operator"@
        &&& is_str(inner->Obj_0@[1].1, "and"@)
    }
}

/// Compiles the free-text description filter.
pub fn description_clause(text: &str) -> (r: Json)
    ensures
        description_clause_ok(r, text@),
{
    obj1(
        "match",
        obj1("rule.description", obj2("query", str_json(text), "operator", str_json("and"))),
    )
}

/// The MITRE clause: should-match-one-of-three case-insensitive wildcards
/// over identifier, tactic and technique.
pub open spec fn mitre_clause_ok(j: Json, m: Seq<char>) -> bool {
    &&& obj1_key(j, "bool"@)
    &&& {
        let inner = obj1_val(j);
        &&& inner is Obj
        &&& inner->Obj_0@.len() == 2
        &&& inner->Obj_0@[0].0@ == "should"@
        &&& {
            let should = inner->Obj_0@[0].1;
            &&& should is Arr
            &&& should->Arr_0@.len() == 3
            &&& wildcard_ci_ok(should->Arr_0@[0], "rule.mitre.id"@, wc_pattern(m))
            &&& wildcard_ci_ok(should->Arr_0@[1], "rule.mitre.tactic"@, wc_pattern(m))
            &&& wildcard_ci_ok(should->Arr_0@[2], "rule.mitre.technique"@, wc_pattern(m))
        }
        &&& inner->Obj_0@[1].0@ == "minimum_should_match"@
        &&& inner->Obj_0@[1].1 == Json::UInt(1)
    }
}

/// Compiles the MITRE filter.
pub fn mitre_clause(m: &str) -> (r: Json)
    ensures
        mitre_clause_ok(r, m@),
{
    let mut should: Vec<Json> = Vec::new();
    should.push(wildcard_ci("rule.mitre.id", m));
    should.push(wildcard_ci("rule.mitre.tactic", m));
    should.push(wildcard_ci("rule.mitre.technique", m));
    obj1("bool", obj2("should", Json::Arr(should), "minimum_should_match", Json::UInt(1)))
}

/// The relative time window: from `now - minutes` to `now`.
pub open spec fn time_clause_ok(j: Json, minutes: u32) -> bool {
    &&& obj1_key(j, "range"@)
    &&& obj1_key(obj1_val(j), "@timestamp"@)
    &&& {
        let inner = obj1_val(obj1_val(j));
        &&& inner is Obj
        &&& inner->Obj_0@.len() == 2
        &&& inner->Obj_0@[0].0@ == "gte"@
        &&& is_str(inner->Obj_0@[0].1, "now-"@ + dec_str(minutes as nat) + "m"@)
        &&& inner->Obj_0@[1].0@ == "lte"@
        &&& is_str(inner->Obj_0@[1].1, "now"@)
    }
}

/// Compiles the time window.
pub fn time_clause(minutes: u32) -> (r: Json)
    ensures
        time_clause_ok(r, minutes),
{
    let mut gte = chars_of("now-");
    let mut num = u32_to_dec(minutes);
    gte.append(&mut num);
    gte.push('m');
    proof {
        reveal_strlit("m");
        assert("m"@ =~= seq!['m']);
        assert(gte@ =~= "now-"@ + dec_str(minutes as nat) + "m"@);
    }
    obj1(
        "range",
        obj1(
            "@timestamp",
            obj2("gte", Json::Str(string_of(&gte)), "lte", str_json("now")),
        ),
    )
}

/// One as an index offset.
pub open spec fn b2i(b: bool) -> int {
    if b {
        1
    } else {
        0
    }
}

/// The AND-combined clause list: the time window first; with a filter, its
/// severity clause and then one clause per non-empty substring filter, in
/// fixed order; an explicit host clause last when the call is scoped to one
/// host.
pub open spec fn must_list_ok(
    must: Seq<Json>,
    minutes: u32,
    filter: Option<LogFilter>,
    agent: Option<Seq<char>>,
) -> bool {
    match filter {
        None => match agent {
            None => must.len() == 1 && time_clause_ok(must[0], minutes),
            Some(aid) => {
                &&& must.len() == 2
                &&& time_clause_ok(must[0], minutes)
                &&& agent_id_clause_ok(must[1], aid)
            },
        },
        Some(f) => {
            let hw = f.agent_filter@.len() > 0;
            let hr = f.rule_id_filter@.len() > 0;
            let hd = f.description_filter@.len() > 0;
            let hm = f.mitre_filter@.len() > 0;
            let ha = agent is Some;
            let iw = 2int;
            let ir = iw + b2i(hw);
            let idx = ir + b2i(hr);
            let im = idx + b2i(hd);
            let ia = im + b2i(hm);
            &&& must.len() == ia + b2i(ha)
            &&& time_clause_ok(must[0], minutes)
            &&& severity_clause_ok(must[1], f.mode, f.val1, f.val2)
            &&& (hw ==> wildcard_ci_ok(must[iw], "agent.name"@, wc_pattern(f.agent_filter@)))
            &&& (hr ==> rule_clause_ok(must[ir], f.rule_id_filter@))
            &&& (hd ==> description_clause_ok(must[idx], f.description_filter@))
            &&& (hm ==> mitre_clause_ok(must[im], f.mitre_filter@))
            &&& (ha ==> agent_id_clause_ok(must[ia], agent->0))
        },
    }
}

/// `{"term": {"agent.id": id}}`: the explicit single-host scope.
pub open spec fn agent_id_clause_ok(j: Json, aid: Seq<char>) -> bool {
    &&& obj1_key(j, "term"@)
    &&& obj1_key(obj1_val(j), "agent.id"@)
    &&& is_str(obj1_val(obj1_val(j)), aid)
}

/// The whole log-search document: explicit offset/limit paging, newest
/// first, and the AND-combined clause list under `query.bool.must`.
pub open spec fn log_query_ok(
    q: Json,
    minutes: u32,
    offset: u32,
    limit: u32,
    filter: Option<LogFilter>,
    agent: Option<Seq<char>>,
) -> bool {
    &&& q is Obj
    &&& q->Obj_0@.len() == 4
    &&& q->Obj_0@[0].0@ == "from"@
    &&& q->Obj_0@[0].1 == Json::UInt(offset as u64)
    &&& q->Obj_0@[1].0@ == "size"@
    &&& q->Obj_0@[1].1 == Json::UInt(limit as u64)
    &&& q->Obj_0@[2].0@ == "sort"@
    &&& {
        let sort = q->Obj_0@[2].1;
        &&& sort is Arr
        &&& sort->Arr_0@.len() == 1
        &&& obj1_key(sort->Arr_0@[0], "@timestamp"@)
        &&& obj1_key(obj1_val(sort->Arr_0@[0]), "order"@)
        &&& is_str(obj1_val(obj1_val(sort->Arr_0@[0])), "desc"@)
    }
    &&& q->Obj_0@[3].0@ == "query"@
    &&& {
        let qq = q->Obj_0@[3].1;
        &&& obj1_key(qq, "bool"@)
        &&& obj1_key(obj1_val(qq), "must"@)
        &&& obj1_val(obj1_val(qq)) is Arr
        &&& must_list_ok(obj1_val(obj1_val(qq))->Arr_0@, minutes, filter, agent)
    }
}

/// A filter reference, dereferenced into a specification value.
pub open spec fn opt_filter(o: Option<&LogFilter>) -> Option<LogFilter> {
    match o {
        Some(f) => Some(*f),
        None => None,
    }
}

/// A string reference, as an optional character sequence.
pub open spec fn opt_str(o: Option<&str>) -> Option<Seq<char>> {
    match o {
        Some(s) => Some(s@),
        None => None,
    }
}

/// Builds the log-search document for a time window, a page, an optional
/// filter, and an optional single-host scope.
pub fn build_log_query(
    agent_id: Option<&str>,
    minutes: u32,
    offset: u32,
    limit: u32,
    filter: Option<&LogFilter>,
) -> (q: Json)
    ensures
        log_query_ok(q, minutes, offset, limit, opt_filter(filter), opt_str(agent_id)),
{
    let mut must: Vec<Json> = Vec::new();
    must.push(time_clause(minutes));
    match filter {
        Some(f) => {
            must.push(severity_clause(f));
            if !f.agent_filter.as_str().is_empty() {
                must.push(wildcard_ci("agent.name", f.agent_filter.as_str()));
            }
            if !f.rule_id_filter.as_str().is_empty() {
                must.push(rule_clause(f.rule_id_filter.as_str()));
            }
            if !f.description_filter.as_str().is_empty() {
                must.push(description_clause(f.description_filter.as_str()));
            }
            if !f.mitre_filter.as_str().is_empty() {
                must.push(mitre_clause(f.mitre_filter.as_str()));
            }
        },
        None => {},
    }
    match agent_id {
        Some(id) => {
            must.push(obj1("term", obj1("agent.id", str_json(id))));
        },
        None => {},
    }
    let mut sort: Vec<Json> = Vec::new();
    sort.push(obj1("@timestamp", obj1("order", str_json("desc"))));
    let mut fs: Vec<(String, Json)> = Vec::new();
    fs.push((String::from_str("from"), Json::UInt(offset as u64)));
    fs.push((String::from_str("size"), Json::UInt(limit as u64)));
    fs.push((String::from_str("sort"), Json::Arr(sort)));
    fs.push((
        String::from_str("query"),
        obj1("bool", obj1("must", Json::Arr(must))),
    ));
    Json::Obj(fs)
}

/// The vulnerability-search document: a term clause on the host identifier,
/// ascending sort by severity, and a page-size cap of five hundred.
pub open spec fn vuln_query_ok(q: Json, agent_id: Seq<char>) -> bool {
    &&& q is Obj
    &&& q->Obj_0@.len() == 3
    &&& q->Obj_0@[0].0@ == "size"@
    &&& q->Obj_0@[0].1 == Json::UInt(500)
    &&& q->Obj_0@[1].0@ == "query"@
    &&& {
        let qq = q->Obj_0@[1].1;
        &&& obj1_key(qq, "bool"@)
        &&& obj1_key(obj1_val(qq), "must"@)
        &&& {
            let must = obj1_val(obj1_val(qq));
            &&& must is Arr
            &&& must->Arr_0@.len() == 1
            &&& agent_id_clause_ok(must->Arr_0@[0], agent_id)
        }
    }
    &&& q->Obj_0@[2].0@ == "sort"@
    &&& {
        let sort = q->Obj_0@[2].1;
        &&& sort is Arr
        &&& sort->Arr_0@.len() == 1
        &&& obj1_key(sort->Arr_0@[0], "vulnerability.severity"@)
        &&& obj1_key(obj1_val(sort->Arr_0@[0]), "order"@)
        &&& is_str(obj1_val(obj1_val(sort->Arr_0@[0])), "asc"@)
    }
}

/// Builds the vulnerability-search document for one host.
pub fn build_vuln_query(agent_id: &str) -> (q: Json)
    ensures
        vuln_query_ok(q, agent_id@),
{
    let mut must: Vec<Json> = Vec::new();
    must.push(obj1("term", obj1("agent.id", str_json(agent_id))));
    let mut sort: Vec<Json> = Vec::new();
    sort.push(obj1("vulnerability.severity", obj1("order", str_json("asc"))));
    let mut fs: Vec<(String, Json)> = Vec::new();
    fs.push((String::from_str("size"), Json::UInt(500)));
    fs.push((
        String::from_str("query"),
        obj1("bool", obj1("must", Json::Arr(must))),
    ));
    fs.push((String::from_str("sort"), Json::Arr(sort)));
    Json::Obj(fs)
}

} // verus!
