//! A small JSON document tree. The query builders produce these values and
//! the boundary serialises them; responses the logic must read come back in
//! through the same type.

use vstd::prelude::*;

verus! {

use crate::text::{chars_eq_str, chars_of};

/// One JSON value. Objects keep their fields in insertion order.
#[derive(Debug)]
pub enum Json {
    Null,
    Bool(bool),
    UInt(u64),
    Str(String),
    Arr(Vec<Json>),
    Obj(Vec<(String, Json)>),
}

/// The value under the first field named `k`, if any.
pub open spec fn lookup_fields(fs: Seq<(String, Json)>, k: Seq<char>) -> Option<Json>
    decreases fs.len(),
{
    if fs.len() == 0 {
        None
    } else if fs[0].0@ == k {
        Some(fs[0].1)
    } else {
        lookup_fields(fs.drop_first(), k)
    }
}

/// Object lookup; `None` on any non-object.
pub open spec fn obj_get(j: Json, k: Seq<char>) -> Option<Json> {
    match j {
        Json::Obj(fs) => lookup_fields(fs@, k),
        _ => None,
    }
}

/// `j` is an object with exactly one field, named `k`.
pub open spec fn obj1_key(j: Json, k: Seq<char>) -> bool {
    j is Obj && j->Obj_0@.len() == 1 && j->Obj_0@[0].0@ == k
}

/// The value of the first field of an object.
pub open spec fn obj1_val(j: Json) -> Json
    recommends
        j is Obj,
        j->Obj_0@.len() >= 1,
{
    j->Obj_0@[0].1
}

/// `j` is the string `s`.
pub open spec fn is_str(j: Json, s: Seq<char>) -> bool {
    j is Str && j->Str_0@ == s
}

impl Json {
    /// Field lookup on an object; `None` on any other value.
    pub fn get<'a>(&'a self, key: &str) -> (r: Option<&'a Json>)
        ensures
            match r {
                Some(v) => obj_get(*self, key@) == Some(*v),
                None => obj_get(*self, key@) is None,
            },
    {
        match self {
            Json::Obj(fs) => {
                let mut i: usize = 0;
                proof {
                    assert(fs@.skip(0) =~= fs@);
                }
                while i < fs.len()
                    invariant
                        i <= fs@.len(),
                        obj_get(*self, key@) == lookup_fields(fs@.skip(i as int), key@),
                    decreases fs@.len() - i,
                {
                    proof {
                        assert(fs@.skip(i as int)[0] == fs@[i as int]);
                        assert(fs@.skip(i as int).drop_first() =~= fs@.skip(i + 1));
                    }
                    let name = chars_of(fs[i].0.as_str());
                    if chars_eq_str(&name, key) {
                        proof {
                            assert(lookup_fields(fs@.skip(i as int), key@) == Some(
                                fs@[i as int].1,
                            ));
                        }
                        return Some(&fs[i].1);
                    }
                    i = i + 1;
                }
                proof {
                    assert(fs@.skip(fs@.len() as int) =~= Seq::<(String, Json)>::empty());
                }
                None
            },
            _ => None,
        }
    }

    /// The length of an array; `None` on any other value.
    pub fn arr_len(&self) -> (r: Option<usize>)
        ensures
            match r {
                Some(n) => self is Arr && self->Arr_0@.len() == n,
                None => !(self is Arr),
            },
    {
        match self {
            Json::Arr(v) => Some(v.len()),
            _ => None,
        }
    }
}

/// Where the host-configuration endpoint's payload lives: under
/// `data.{section}`, falling back to the whole `data` object, falling back to
/// the response itself.
pub open spec fn spec_config_section(v: Json, section: Seq<char>) -> Json {
    match obj_get(v, "data"@) {
        Some(d) => match obj_get(d, section) {
            Some(c) => c,
            None => d,
        },
        None => v,
    }
}

/// Picks the configuration payload out of a raw response.
pub fn extract_config_section<'a>(v: &'a Json, section: &str) -> (r: &'a Json)
    ensures
        *r == spec_config_section(*v, section@),
{
    match v.get("data") {
        Some(d) => match d.get(section) {
            Some(c) => c,
            None => d,
        },
        None => v,
    }
}

} // verus!
