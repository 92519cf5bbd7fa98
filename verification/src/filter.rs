//! Shallow lookup in a decoded JSON tree: the value bound to a key at the
//! top level of an object.

use crate::json::{JsonMember, JsonValue};
use crate::kernel::{Filter, FilterError};
use vstd::prelude::*;

verus! {

/// The value of the first member whose key matches, if any.
pub open spec fn spec_get_member(ms: Seq<JsonMember>, key: Seq<char>) -> Option<JsonValue>
    decreases ms.len(),
{
    if ms.len() == 0 {
        None
    } else if ms[0].key@ == key {
        Some(ms[0].value)
    } else {
        spec_get_member(ms.subrange(1, ms.len() as int), key)
    }
}

/// What a shallow lookup for `key` finds in `json`: an array yields nothing,
/// an object yields the value bound to `key` unless it is absent or null,
/// and anything else has no keys to look up.
pub open spec fn spec_lookup(json: JsonValue, key: Seq<char>) -> Result<
    Seq<JsonValue>,
    FilterError,
> {
    match json {
        JsonValue::Array(_) => Ok(Seq::empty()),
        JsonValue::Object(ms) => match spec_get_member(ms@, key) {
            Some(v) => if v is Null {
                Err(FilterError::KeyNotFound)
            } else {
                Ok(seq![v])
            },
            None => Err(FilterError::KeyNotFound),
        },
        _ => Err(FilterError::KeyNotFound),
    }
}

fn get_member(ms: Vec<JsonMember>, key: &String) -> (r: Option<JsonValue>)
    ensures
        r == spec_get_member(ms@, key@),
    decreases ms@.len(),
{
    let mut ms = ms;
    if ms.len() == 0 {
        None
    } else {
        let ghost ms0 = ms@;
        let m = ms.remove(0);
        proof {
            assert(ms@ =~= ms0.subrange(1, ms0.len() as int));
        }
        let JsonMember { key: k, value } = m;
        if k.eq(key) {
            Some(value)
        } else {
            get_member(ms, key)
        }
    }
}

/// A shallow-lookup rule: the value bound to `key` at the top level.
#[derive(Debug)]
pub struct Match<T> {
    key: String,
    values: Option<Vec<T>>,
}

impl<T> Match<T> {
    /// The key this rule looks up.
    pub closed spec fn spec_key(&self) -> Seq<char> {
        self.key@
    }

    /// A rule that looks up `key`.
    pub fn new(key: &str) -> (r: Self)
        ensures
            r.spec_key() == key@,
    {
        Self { key: String::from_str(key), values: None }
    }
}

impl<T> Filter for Match<T> {
    open spec fn spec_filter(&self, json: JsonValue) -> Result<Seq<JsonValue>, FilterError> {
        spec_lookup(json, self.spec_key())
    }

    fn filter(&self, json: JsonValue) -> (r: Result<Vec<JsonValue>, FilterError>) {
        match json {
            JsonValue::Array(_) => Ok(Vec::new()),
            JsonValue::Object(ms) => match get_member(ms, &self.key) {
                Some(v) => {
                    let is_null = matches!(v, JsonValue::Null);
                    if is_null {
                        Err(FilterError::KeyNotFound)
                    } else {
                        let mut one = Vec::new();
                        one.push(v);
                        proof {
                            assert(one@ =~= self.spec_filter(json)->Ok_0);
                        }
                        Ok(one)
                    }
                },
                None => Err(FilterError::KeyNotFound),
            },
            _ => Err(FilterError::KeyNotFound),
        }
    }
}

/// Converts the raw tree and applies the rule.
pub fn filter<F>(res: serde_json::Value, filter: &F) -> (r: Result<
    Vec<JsonValue>,
    FilterError,
>) where F: Filter {
    let tree = crate::json::to_tree(&res);
    filter.filter(tree)
}

} // verus!
