//! Deep search through a decoded JSON tree: collects every value that sits
//! under a given object key, at any depth.

use crate::json::{JsonMember, JsonValue};
use crate::kernel::{Filter, FilterError};
use vstd::prelude::*;

verus! {

/// Every value bound to `key` in the tree `v`: a member whose key matches
/// contributes its value (which is not searched further); every other
/// member value and every array element is searched in order.
pub open spec fn spec_collect(v: JsonValue, key: Seq<char>) -> Seq<JsonValue>
    decreases v,
{
    match v {
        JsonValue::Object(members) => spec_collect_members(members@, key),
        JsonValue::Array(elems) => spec_collect_elems(elems@, key),
        _ => Seq::empty(),
    }
}

/// The values collected from a run of object members.
pub open spec fn spec_collect_members(ms: Seq<JsonMember>, key: Seq<char>) -> Seq<JsonValue>
    decreases ms,
{
    if ms.len() == 0 {
        Seq::empty()
    } else {
        (if ms[0].key@ == key {
            seq![ms[0].value]
        } else {
            spec_collect(ms[0].value, key)
        }) + spec_collect_members(ms.subrange(1, ms.len() as int), key)
    }
}

/// The values collected from a run of array elements.
pub open spec fn spec_collect_elems(es: Seq<JsonValue>, key: Seq<char>) -> Seq<JsonValue>
    decreases es,
{
    if es.len() == 0 {
        Seq::empty()
    } else {
        spec_collect(es[0], key) + spec_collect_elems(es.subrange(1, es.len() as int), key)
    }
}

/// Collects every value bound to `key` anywhere in the tree.
pub fn collect_values(v: JsonValue, key: &String) -> (r: Vec<JsonValue>)
    ensures
        r@ == spec_collect(v, key@),
    decreases v,
{
    match v {
        JsonValue::Object(members) => collect_from_members(members, key),
        JsonValue::Array(elems) => collect_from_elems(elems, key),
        _ => Vec::new(),
    }
}

fn collect_from_members(ms: Vec<JsonMember>, key: &String) -> (r: Vec<JsonValue>)
    ensures
        r@ == spec_collect_members(ms@, key@),
    decreases ms@,
{
    let mut ms = ms;
    if ms.len() == 0 {
        let r = Vec::new();
        proof {
            assert(r@ =~= spec_collect_members(ms@, key@));
        }
        r
    } else {
        let ghost ms0 = ms@;
        let m = ms.remove(0);
        proof {
            assert(ms@ =~= ms0.subrange(1, ms0.len() as int));
            assert(decreases_to!(ms0 => ms0[0]));
        }
        let JsonMember { key: k, value } = m;
        let mut out: Vec<JsonValue> = if k.eq(key) {
            let mut one = Vec::new();
            one.push(value);
            one
        } else {
            collect_values(value, key)
        };
        let mut rest = collect_from_members(ms, key);
        out.append(&mut rest);
        proof {
            assert(out@ =~= spec_collect_members(ms0, key@));
        }
        out
    }
}

fn collect_from_elems(es: Vec<JsonValue>, key: &String) -> (r: Vec<JsonValue>)
    ensures
        r@ == spec_collect_elems(es@, key@),
    decreases es@,
{
    let mut es = es;
    if es.len() == 0 {
        let r = Vec::new();
        proof {
            assert(r@ =~= spec_collect_elems(es@, key@));
        }
        r
    } else {
        let ghost es0 = es@;
        let e = es.remove(0);
        proof {
            assert(es@ =~= es0.subrange(1, es0.len() as int));
            assert(decreases_to!(es0 => es0[0]));
        }
        let mut out = collect_values(e, key);
        let mut rest = collect_from_elems(es, key);
        out.append(&mut rest);
        proof {
            assert(out@ =~= spec_collect_elems(es0, key@));
        }
        out
    }
}

/// A deep-search rule: collect every value bound to `key`.
#[derive(Debug)]
pub struct Match<T> {
    key: String,
    values: Option<Vec<T>>,
}

impl<T> Match<T> {
    /// The key this rule searches for.
    pub closed spec fn spec_key(&self) -> Seq<char> {
        self.key@
    }

    /// A rule that searches for `key`.
    pub fn new(key: &str) -> (r: Self)
        ensures
            r.spec_key() == key@,
    {
        Self { key: String::from_str(key), values: None }
    }
}

impl<T> Filter for Match<T> {
    open spec fn spec_filter(&self, json: JsonValue) -> Result<Seq<JsonValue>, FilterError> {
        Ok(spec_collect(json, self.spec_key()))
    }

    fn filter(&self, json: JsonValue) -> (r: Result<Vec<JsonValue>, FilterError>) {
        Ok(collect_values(json, &self.key))
    }
}

/// Decodes nothing itself: converts the raw tree and applies the rule.
pub fn filter<F>(res: serde_json::Value, filter: &F) -> (r: Result<
    Vec<JsonValue>,
    FilterError,
>) where F: Filter {
    let tree = crate::json::to_tree(&res);
    filter.filter(tree)
}

} // verus!
