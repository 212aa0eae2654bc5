//! The filter-predicate language: one whitespace-delimited token of the
//! operator's query becomes one predicate, and an entity matches when every
//! predicate holds.

use vstd::prelude::*;

verus! {

use crate::models::WazuhAgent;
use crate::text::{
    chars_eq, chars_eq_str, chars_of, contains_chars, contains_seq, find_char, find_char_exec,
    is_u32_literal, lower, lower_vec, parse_u32, string_of, sub_chars, tokenize, tokens,
    u32_literal_val,
};

/// One parsed filter condition.
#[derive(Debug, Clone, PartialEq)]
pub enum FilterPredicate {
    Name(String),
    Id(String),
    Ip(String),
    Status(String),
    Os(String),
    Severity(u32),
    Global(String),
}

/// The mathematical shape of a predicate: payloads as character sequences.
pub ghost enum PredView {
    Name(Seq<char>),
    Id(Seq<char>),
    Ip(Seq<char>),
    Status(Seq<char>),
    Os(Seq<char>),
    Severity(u32),
    Global(Seq<char>),
}

impl View for FilterPredicate {
    type V = PredView;

    open spec fn view(&self) -> PredView {
        match self {
            FilterPredicate::Name(s) => PredView::Name(s@),
            FilterPredicate::Id(s) => PredView::Id(s@),
            FilterPredicate::Ip(s) => PredView::Ip(s@),
            FilterPredicate::Status(s) => PredView::Status(s@),
            FilterPredicate::Os(s) => PredView::Os(s@),
            FilterPredicate::Severity(n) => PredView::Severity(*n),
            FilterPredicate::Global(s) => PredView::Global(s@),
        }
    }
}

/// The views of a predicate list.
pub open spec fn preds_view(v: Seq<FilterPredicate>) -> Seq<PredView> {
    v.map_values(|p: FilterPredicate| p@)
}

/// What one severity value parses to: the named tiers first, then a plain
/// unsigned number; anything else emits no predicate.
pub open spec fn parse_severity(val: Seq<char>) -> Option<PredView> {
    let lv = lower(val);
    if lv == "crit"@ || lv == "critical"@ {
        Some(PredView::Severity(12))
    } else if lv == "high"@ {
        Some(PredView::Severity(8))
    } else if lv == "med"@ || lv == "medium"@ {
        Some(PredView::Severity(4))
    } else if lv == "low"@ {
        Some(PredView::Severity(0))
    } else if is_u32_literal(val) {
        Some(PredView::Severity(u32_literal_val(val) as u32))
    } else {
        None
    }
}

/// What one token parses to. A `key:value` token selects a predicate kind by
/// its case-folded key; any other key, or a token without a colon, becomes a
/// case-folded global substring predicate over the whole token.
pub open spec fn parse_token(t: Seq<char>) -> Option<PredView> {
    match find_char(t, ':') {
        None => Some(PredView::Global(lower(t))),
        Some(k) => {
            let key = lower(t.take(k as int));
            let val = t.skip(k as int + 1);
            if key == "name"@ || key == "n"@ {
                Some(PredView::Name(lower(val)))
            } else if key == "id"@ {
                Some(PredView::Id(lower(val)))
            } else if key == "ip"@ {
                Some(PredView::Ip(lower(val)))
            } else if key == "status"@ || key == "st"@ {
                Some(PredView::Status(lower(val)))
            } else if key == "os"@ {
                Some(PredView::Os(lower(val)))
            } else if key == "sev"@ || key == "s"@ {
                parse_severity(val)
            } else {
                Some(PredView::Global(lower(t)))
            }
        },
    }
}

/// The predicates of a token list, in token order.
pub open spec fn parse_preds(toks: Seq<Seq<char>>) -> Seq<PredView>
    decreases toks.len(),
{
    if toks.len() == 0 {
        Seq::empty()
    } else {
        (match parse_token(toks[0]) {
            Some(p) => seq![p],
            None => Seq::empty(),
        }) + parse_preds(toks.drop_first())
    }
}

/// The predicates of a whole query string.
pub open spec fn spec_parse(q: Seq<char>) -> Seq<PredView> {
    parse_preds(tokens(q))
}

/// One predicate holds of one entity. String comparisons are case-folded
/// substring containment, except: a status must match exactly after folding,
/// an address is compared unfolded, and a severity predicate has no matching
/// field on the entity and holds vacuously.
pub open spec fn pred_holds(p: PredView, a: WazuhAgent) -> bool {
    match p {
        PredView::Name(v) => contains_seq(lower(a.name@), v),
        PredView::Id(v) => contains_seq(lower(a.id@), v),
        PredView::Ip(v) => match a.ip {
            Some(ip) => contains_seq(ip@, v),
            None => false,
        },
        PredView::Status(v) => lower(a.status@) == v,
        PredView::Os(v) => match a.os {
            Some(os) => match os.name {
                Some(n) => contains_seq(lower(n@), v),
                None => false,
            },
            None => false,
        },
        PredView::Severity(_) => true,
        PredView::Global(v) => contains_seq(lower(a.name@), v) || contains_seq(lower(a.id@), v)
            || (match a.ip {
            Some(ip) => contains_seq(ip@, v),
            None => false,
        }),
    }
}

/// Every predicate holds; an empty list holds of everything.
pub open spec fn all_hold(preds: Seq<PredView>, a: WazuhAgent) -> bool {
    forall|i: int| 0 <= i < preds.len() ==> pred_holds(#[trigger] preds[i], a)
}

/// An ordered predicate list together with the raw query it came from.
#[derive(Debug, Clone)]
pub struct AgentFilter {
    pub predicates: Vec<FilterPredicate>,
    pub raw_query: String,
}

impl Default for AgentFilter {
    /// The empty filter: no predicates, empty query text.
    fn default() -> (r: Self)
        ensures
            r.predicates@.len() == 0,
            r.raw_query@.len() == 0,
    {
        AgentFilter { predicates: Vec::new(), raw_query: String::new() }
    }
}

/// Parses one token.
fn parse_token_exec(t: &Vec<char>) -> (r: Option<FilterPredicate>)
    ensures
        match r {
            Some(p) => parse_token(t@) == Some(p@),
            None => parse_token(t@) is None,
        },
{
    match find_char_exec(t, ':') {
        None => {
            let lt = lower_vec(t);
            Some(FilterPredicate::Global(string_of(&lt)))
        },
        Some(k) => {
            let n = t.len();
            let raw_key = sub_chars(t, 0, k);
            let key = lower_vec(&raw_key);
            let val = sub_chars(t, k + 1, n);
            proof {
                assert(t@.subrange(0, k as int) =~= t@.take(k as int));
                assert(t@.subrange(k + 1, t@.len() as int) =~= t@.skip(k + 1));
            }
            if chars_eq_str(&key, "name") || chars_eq_str(&key, "n") {
                Some(FilterPredicate::Name(string_of(&lower_vec(&val))))
            } else if chars_eq_str(&key, "id") {
                Some(FilterPredicate::Id(string_of(&lower_vec(&val))))
            } else if chars_eq_str(&key, "ip") {
                Some(FilterPredicate::Ip(string_of(&lower_vec(&val))))
            } else if chars_eq_str(&key, "status") || chars_eq_str(&key, "st") {
                Some(FilterPredicate::Status(string_of(&lower_vec(&val))))
            } else if chars_eq_str(&key, "os") {
                Some(FilterPredicate::Os(string_of(&lower_vec(&val))))
            } else if chars_eq_str(&key, "sev") || chars_eq_str(&key, "s") {
                let lv = lower_vec(&val);
                if chars_eq_str(&lv, "crit") || chars_eq_str(&lv, "critical") {
                    Some(FilterPredicate::Severity(12))
                } else if chars_eq_str(&lv, "high") {
                    Some(FilterPredicate::Severity(8))
                } else if chars_eq_str(&lv, "med") || chars_eq_str(&lv, "medium") {
                    Some(FilterPredicate::Severity(4))
                } else if chars_eq_str(&lv, "low") {
                    Some(FilterPredicate::Severity(0))
                } else {
                    match parse_u32(&val) {
                        Some(n) => Some(FilterPredicate::Severity(n)),
                        None => None,
                    }
                }
            } else {
                let lt = lower_vec(t);
                Some(FilterPredicate::Global(string_of(&lt)))
            }
        },
    }
}

/// One predicate, evaluated against one entity.
fn pred_holds_exec(p: &FilterPredicate, a: &WazuhAgent) -> (r: bool)
    ensures
        r == pred_holds(p@, *a),
{
    match p {
        FilterPredicate::Name(v) => {
            let hay = lower_vec(&chars_of(a.name.as_str()));
            contains_chars(&hay, &chars_of(v.as_str()))
        },
        FilterPredicate::Id(v) => {
            let hay = lower_vec(&chars_of(a.id.as_str()));
            contains_chars(&hay, &chars_of(v.as_str()))
        },
        FilterPredicate::Ip(v) => match &a.ip {
            Some(ip) => contains_chars(&chars_of(ip.as_str()), &chars_of(v.as_str())),
            None => false,
        },
        FilterPredicate::Status(v) => {
            let hay = lower_vec(&chars_of(a.status.as_str()));
            chars_eq(&hay, &chars_of(v.as_str()))
        },
        FilterPredicate::Os(v) => match &a.os {
            Some(os) => match &os.name {
                Some(n) => {
                    let hay = lower_vec(&chars_of(n.as_str()));
                    contains_chars(&hay, &chars_of(v.as_str()))
                },
                None => false,
            },
            None => false,
        },
        FilterPredicate::Severity(_) => true,
        FilterPredicate::Global(v) => {
            let needle = chars_of(v.as_str());
            let name_hay = lower_vec(&chars_of(a.name.as_str()));
            if contains_chars(&name_hay, &needle) {
                return true;
            }
            let id_hay = lower_vec(&chars_of(a.id.as_str()));
            if contains_chars(&id_hay, &needle) {
                return true;
            }
            match &a.ip {
                Some(ip) => contains_chars(&chars_of(ip.as_str()), &needle),
                None => false,
            }
        },
    }
}

impl AgentFilter {
    /// Splits the query on whitespace and parses each token; unparsable
    /// severity values are dropped, everything else yields a predicate.
    pub fn parse(query: &str) -> (f: AgentFilter)
        ensures
            preds_view(f.predicates@) == spec_parse(query@),
            f.raw_query@ == query@,
    {
        let q = chars_of(query);
        let toks = tokenize(&q);
        let ghost tv = toks.deep_view();
        let mut predicates: Vec<FilterPredicate> = Vec::new();
        let mut i: usize = 0;
        proof {
            assert(preds_view(predicates@) =~= Seq::empty());
            assert(tv.skip(0) =~= tv);
        }
        while i < toks.len()
            invariant
                tv == toks.deep_view(),
                toks@.len() == tv.len(),
                i <= tv.len(),
                spec_parse(q@) == preds_view(predicates@) + parse_preds(tv.skip(i as int)),
                forall|k: int| 0 <= k < toks@.len() ==> (#[trigger] toks@[k])@ == tv[k],
            decreases tv.len() - i,
        {
            let ghost rest = tv.skip(i as int);
            proof {
                assert(rest[0] == tv[i as int]);
                assert(rest.drop_first() =~= tv.skip(i + 1));
            }
            let ghost old_preds = preds_view(predicates@);
            match parse_token_exec(&toks[i]) {
                Some(p) => {
                    predicates.push(p);
                    proof {
                        assert(preds_view(predicates@) =~= old_preds + seq![p@]);
                        assert(old_preds + seq![p@] + parse_preds(tv.skip(i + 1)) =~= old_preds
                            + (seq![p@] + parse_preds(tv.skip(i + 1))));
                    }
                },
                None => {
                    proof {
                        assert(parse_preds(rest) =~= parse_preds(tv.skip(i + 1)));
                    }
                },
            }
            i = i + 1;
        }
        proof {
            assert(tv.skip(tv.len() as int) =~= Seq::empty());
            assert(preds_view(predicates@) + Seq::<PredView>::empty() =~= preds_view(
                predicates@,
            ));
        }
        let raw_query = string_of(&q);
        AgentFilter { predicates, raw_query }
    }

    /// True exactly when every predicate holds of the entity; the empty
    /// filter matches everything.
    pub fn matches(&self, agent: &WazuhAgent) -> (r: bool)
        ensures
            r == all_hold(preds_view(self.predicates@), *agent),
    {
        let mut i: usize = 0;
        while i < self.predicates.len()
            invariant
                i <= self.predicates@.len(),
                forall|k: int|
                    0 <= k < i ==> pred_holds(#[trigger] preds_view(self.predicates@)[k], *agent),
            decreases self.predicates@.len() - i,
        {
            if !pred_holds_exec(&self.predicates[i], agent) {
                proof {
                    assert(!pred_holds(preds_view(self.predicates@)[i as int], *agent));
                }
                return false;
            }
            i = i + 1;
        }
        true
    }
}

/// Law: the empty predicate list matches every entity.
pub proof fn lemma_empty_filter_matches_all(a: WazuhAgent)
    ensures
        all_hold(Seq::<PredView>::empty(), a),
{
}

/// Law: parsing, and matching through the parsed predicates, is a pure
/// function of the query text and the entity. Two predicate lists obtained
/// from the same query are equal, and they match exactly the same entities.
pub proof fn lemma_parse_matches_pure(
    q: Seq<char>,
    p1: Seq<PredView>,
    p2: Seq<PredView>,
    a: WazuhAgent,
)
    requires
        p1 == spec_parse(q),
        p2 == spec_parse(q),
    ensures
        p1 == p2,
        all_hold(p1, a) == all_hold(p2, a),
{
}

} // verus!
