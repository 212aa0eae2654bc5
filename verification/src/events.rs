//! Reading the fields of one security event out of its raw document, one per
//! table column, with the fallbacks the console shows for absent data.

use vstd::prelude::*;

verus! {

use crate::json::{obj_get, Json};
use crate::state::LogColumn;
use crate::text::{chars_of, dec_str, find_char, find_char_exec, join_chars, joined_with, string_of};

/// The string under a field, if the field is there and holds one.
pub open spec fn get_str(j: Json, k: Seq<char>) -> Option<Seq<char>> {
    match obj_get(j, k) {
        Some(v) => match v {
            Json::Str(s) => Some(s@),
            _ => None,
        },
        _ => None,
    }
}

/// The unsigned number under a field, if the field is there and holds one.
pub open spec fn get_u64(j: Json, k: Seq<char>) -> Option<u64> {
    match obj_get(j, k) {
        Some(v) => match v {
            Json::UInt(n) => Some(n),
            _ => None,
        },
        _ => None,
    }
}

/// The string under a two-step path.
pub open spec fn get_str2(j: Json, k1: Seq<char>, k2: Seq<char>) -> Option<Seq<char>> {
    match obj_get(j, k1) {
        Some(v) => get_str(v, k2),
        None => None,
    }
}

/// The first string of the array under a two-step path.
pub open spec fn get_first_of_arr2(j: Json, k1: Seq<char>, k2: Seq<char>) -> Option<Seq<char>> {
    match obj_get(j, k1) {
        Some(v) => match obj_get(v, k2) {
            Some(a) => match a {
                Json::Arr(items) => if items@.len() > 0 {
                    match items@[0] {
                        Json::Str(s) => Some(s@),
                        _ => None,
                    }
                } else {
                    None
                },
                _ => None,
            },
            None => None,
        },
        None => None,
    }
}

/// A timestamp cut down for the table: everything before the first dot, with
/// the date-time separator turned into a space.
pub open spec fn ts_clean(s: Seq<char>) -> Seq<char> {
    let p = match find_char(s, '.') {
        Some(k) => s.take(k as int),
        None => s,
    };
    p.map_values(|c: char| if c == 'T' {
        ' '
    } else {
        c
    })
}

/// An alert level as the table shows it: two digits, zero-padded.
pub open spec fn two_digit(n: u64) -> Seq<char> {
    if n < 10 {
        seq!['0'] + dec_str(n as nat)
    } else {
        dec_str(n as nat)
    }
}

/// The string elements of an array, other values dropped.
pub open spec fn str_elems(items: Seq<Json>) -> Seq<Seq<char>>
    decreases items.len(),
{
    if items.len() == 0 {
        Seq::empty()
    } else {
        str_elems(items.drop_last()) + (match items.last() {
            Json::Str(s) => seq![s@],
            _ => Seq::empty(),
        })
    }
}

/// At most the first three of a list.
pub open spec fn first_three(parts: Seq<Seq<char>>) -> Seq<Seq<char>> {
    if parts.len() <= 3 {
        parts
    } else {
        parts.take(3)
    }
}

/// What each column shows for one event document: the named field, or the
/// column's fallback text where the document does not carry it.
pub open spec fn spec_extract_field(source: Json, column: LogColumn) -> Seq<char> {
    match column {
        LogColumn::Timestamp => match get_str(source, "@timestamp"@) {
            Some(ts) => ts_clean(ts),
            None => "Unknown"@,
        },
        LogColumn::Level => match obj_get(source, "rule"@) {
            Some(rule) => match get_u64(rule, "level"@) {
                Some(n) => two_digit(n),
                None => two_digit(0),
            },
            None => two_digit(0),
        },
        LogColumn::Agent => match get_str2(source, "agent"@, "name"@) {
            Some(s) => s,
            None => "Manager"@,
        },
        LogColumn::Description => match get_str2(source, "rule"@, "description"@) {
            Some(s) => s,
            None => "No description"@,
        },
        LogColumn::RuleId => match get_str2(source, "rule"@, "id"@) {
            Some(s) => s,
            None => "-"@,
        },
        LogColumn::MitreId => match obj_get(source, "rule"@) {
            Some(rule) => match get_first_of_arr2(rule, "mitre"@, "id"@) {
                Some(s) => s,
                None => "-"@,
            },
            None => "-"@,
        },
        LogColumn::MitreTactic => match obj_get(source, "rule"@) {
            Some(rule) => match get_first_of_arr2(rule, "mitre"@, "tactic"@) {
                Some(s) => s,
                None => "-"@,
            },
            None => "-"@,
        },
        LogColumn::SrcIp => match get_str2(source, "data"@, "srcip"@) {
            Some(s) => s,
            None => match get_str2(source, "data"@, "src_ip"@) {
                Some(s) => s,
                None => "-"@,
            },
        },
        LogColumn::DstIp => match get_str2(source, "data"@, "dstip"@) {
            Some(s) => s,
            None => match get_str2(source, "data"@, "dst_ip"@) {
                Some(s) => s,
                None => "-"@,
            },
        },
        LogColumn::User => match get_str2(source, "data"@, "srcuser"@) {
            Some(s) => s,
            None => match get_str2(source, "data"@, "dstuser"@) {
                Some(s) => s,
                None => match get_str2(source, "data"@, "user"@) {
                    Some(s) => s,
                    None => "-"@,
                },
            },
        },
        LogColumn::Groups => match obj_get(source, "rule"@) {
            Some(rule) => match obj_get(rule, "groups"@) {
                Some(g) => match g {
                    Json::Arr(items) => joined_with(first_three(str_elems(items@)), ", "@),
                    _ => "-"@,
                },
                None => "-"@,
            },
            None => "-"@,
        },
    }
}

/// The string value of a field, cloned out, or `None`.
fn get_str_exec<'a>(j: &'a Json, k: &str) -> (r: Option<&'a String>)
    ensures
        match r {
            Some(s) => get_str(*j, k@) == Some(s@),
            None => get_str(*j, k@) is None,
        },
{
    match j.get(k) {
        Some(v) => match v {
            Json::Str(s) => Some(s),
            _ => None,
        },
        None => None,
    }
}

/// A string under a two-step path.
fn get_str2_exec<'a>(j: &'a Json, k1: &str, k2: &str) -> (r: Option<&'a String>)
    ensures
        match r {
            Some(s) => get_str2(*j, k1@, k2@) == Some(s@),
            None => get_str2(*j, k1@, k2@) is None,
        },
{
    match j.get(k1) {
        Some(v) => get_str_exec(v, k2),
        None => None,
    }
}

/// A two-step string field with a fallback literal.
fn str2_or(j: &Json, k1: &str, k2: &str, fallback: &str) -> (r: String)
    ensures
        r@ == match get_str2(*j, k1@, k2@) {
            Some(s) => s,
            None => fallback@,
        },
{
    match get_str2_exec(j, k1, k2) {
        Some(s) => s.clone(),
        None => {
            let v = chars_of(fallback);
            string_of(&v)
        },
    }
}

/// The first string of an array under a two-step path.
fn first_of_arr2_exec<'a>(j: &'a Json, k1: &str, k2: &str) -> (r: Option<&'a String>)
    ensures
        match r {
            Some(s) => get_first_of_arr2(*j, k1@, k2@) == Some(s@),
            None => get_first_of_arr2(*j, k1@, k2@) is None,
        },
{
    match j.get(k1) {
        Some(v) => match v.get(k2) {
            Some(a) => match a {
                Json::Arr(items) => {
                    if items.len() > 0 {
                        match &items[0] {
                            Json::Str(s) => Some(s),
                            _ => None,
                        }
                    } else {
                        None
                    }
                },
                _ => None,
            },
            None => None,
        },
        None => None,
    }
}

/// Renders an unsigned number in decimal.
fn u64_to_dec(n: u64) -> (r: Vec<char>)
    ensures
        r@ == dec_str(n as nat),
    decreases n,
{
    if n < 10 {
        let c = ((n as u8) + 48) as char;
        let mut r: Vec<char> = Vec::new();
        r.push(c);
        proof {
            assert(r@ =~= dec_str(n as nat));
        }
        r
    } else {
        let mut r = u64_to_dec(n / 10);
        let c = (((n % 10) as u8) + 48) as char;
        r.push(c);
        r
    }
}

/// Zero-pads a level to two digits.
fn two_digit_exec(n: u64) -> (r: Vec<char>)
    ensures
        r@ == two_digit(n),
{
    if n < 10 {
        let mut r: Vec<char> = Vec::new();
        r.push('0');
        let mut d = u64_to_dec(n);
        r.append(&mut d);
        proof {
            assert(r@ =~= two_digit(n));
        }
        r
    } else {
        u64_to_dec(n)
    }
}

/// Cuts a timestamp down for the table.
fn ts_clean_exec(ts: &str) -> (r: String)
    ensures
        r@ == ts_clean(ts@),
{
    let v = chars_of(ts);
    let cut: usize = match find_char_exec(&v, '.') {
        Some(k) => k,
        None => v.len(),
    };
    let mut out: Vec<char> = Vec::new();
    let mut i: usize = 0;
    while i < cut
        invariant
            i <= cut <= v@.len(),
            out@ == ts_clean(ts@).take(i as int),
            cut == ts_clean(ts@).len(),
            v@ == ts@,
            forall|k: int| 0 <= k < cut ==> ts_clean(ts@)[k] == (if v@[k] == 'T' {
                ' '
            } else {
                v@[k]
            }),
        decreases cut - i,
    {
        let c = v[i];
        if c == 'T' {
            out.push(' ');
        } else {
            out.push(c);
        }
        i = i + 1;
        proof {
            assert(out@ =~= ts_clean(ts@).take(i as int));
        }
    }
    proof {
        assert(out@ =~= ts_clean(ts@));
    }
    string_of(&out)
}

/// Reads what one column shows for one event document.
pub fn extract_field(source: &Json, column: LogColumn) -> (r: String)
    ensures
        r@ == spec_extract_field(*source, column),
{
    match column {
        LogColumn::Timestamp => match get_str_exec(source, "@timestamp") {
            Some(ts) => ts_clean_exec(ts.as_str()),
            None => {
                let v = chars_of("Unknown");
                string_of(&v)
            },
        },
        LogColumn::Level => {
            let level: u64 = match source.get("rule") {
                Some(rule) => match rule.get("level") {
                    Some(v) => match v {
                        Json::UInt(n) => *n,
                        _ => 0,
                    },
                    None => 0,
                },
                None => 0,
            };
            string_of(&two_digit_exec(level))
        },
        LogColumn::Agent => str2_or(source, "agent", "name", "Manager"),
        LogColumn::Description => str2_or(source, "rule", "description", "No description"),
        LogColumn::RuleId => str2_or(source, "rule", "id", "-"),
        LogColumn::MitreId => match source.get("rule") {
            Some(rule) => match first_of_arr2_exec(rule, "mitre", "id") {
                Some(s) => s.clone(),
                None => {
                    let v = chars_of("-");
                    string_of(&v)
                },
            },
            None => {
                let v = chars_of("-");
                string_of(&v)
            },
        },
        LogColumn::MitreTactic => match source.get("rule") {
            Some(rule) => match first_of_arr2_exec(rule, "mitre", "tactic") {
                Some(s) => s.clone(),
                None => {
                    let v = chars_of("-");
                    string_of(&v)
                },
            },
            None => {
                let v = chars_of("-");
                string_of(&v)
            },
        },
        LogColumn::SrcIp => match get_str2_exec(source, "data", "srcip") {
            Some(s) => s.clone(),
            None => str2_or(source, "data", "src_ip", "-"),
        },
        LogColumn::DstIp => match get_str2_exec(source, "data", "dstip") {
            Some(s) => s.clone(),
            None => str2_or(source, "data", "dst_ip", "-"),
        },
        LogColumn::User => match get_str2_exec(source, "data", "srcuser") {
            Some(s) => s.clone(),
            None => match get_str2_exec(source, "data", "dstuser") {
                Some(s) => s.clone(),
                None => str2_or(source, "data", "user", "-"),
            },
        },
        LogColumn::Groups => match source.get("rule") {
            Some(rule) => match rule.get("groups") {
                Some(g) => match g {
                    Json::Arr(items) => {
                        let mut parts: Vec<Vec<char>> = Vec::new();
                        let mut i: usize = 0;
                        while i < items.len()
                            invariant
                                i <= items@.len(),
                                parts.deep_view() == str_elems(items@.take(i as int)),
                            decreases items@.len() - i,
                        {
                            proof {
                                assert(items@.take(i + 1).drop_last() =~= items@.take(i as int));
                                assert(items@.take(i + 1).last() == items@[i as int]);
                            }
                            let ghost old_parts = parts.deep_view();
                            match &items[i] {
                                Json::Str(s) => {
                                    let sc = chars_of(s.as_str());
                                    parts.push(sc);
                                    proof {
                                        assert(parts.deep_view() =~~= old_parts + seq![
                                            items@[i as int]->Str_0@,
                                        ]);
                                    }
                                },
                                _ => {},
                            }
                            i = i + 1;
                            proof {
                                assert(parts.deep_view() =~~= str_elems(items@.take(i as int)));
                            }
                        }
                        proof {
                            assert(items@.take(items@.len() as int) =~= items@);
                        }
                        if parts.len() > 3 {
                            parts.truncate(3);
                            proof {
                                assert(parts.deep_view() =~~= first_three(str_elems(items@)));
                            }
                        }
                        string_of(&join_chars(&parts, ", "))
                    },
                    _ => {
                        let v = chars_of("-");
                        string_of(&v)
                    },
                },
                None => {
                    let v = chars_of("-");
                    string_of(&v)
                },
            },
            None => {
                let v = chars_of("-");
                string_of(&v)
            },
        },
    }
}

} // verus!
