//! The values that a script leaves behind, and the one among them that is its result.
use vstd::prelude::*;
use crate::json::{json_clone, json_is_null, json_null, JsonMap};

verus! {

/// The values a script left behind, with the name under which its result stands.
pub struct Values {
    json_values: JsonMap,
    result_name: String,
}

impl Values {
    /// The values, by name.
    pub closed spec fn values(self) -> Map<Seq<char>, serde_json::Value> {
        self.json_values@
    }

    /// The name of the result among the values.
    pub closed spec fn result_name(self) -> Seq<char> {
        self.result_name@
    }

    /// The values `json_values`, whose result stands under `result_name`.
    pub fn new(json_values: JsonMap, result_name: String) -> (r: Self)
        ensures
            r.values() == json_values@,
            r.result_name() == result_name@,
    {
        Values { json_values, result_name }
    }

    /// All values, by name.
    pub fn get_values(&self) -> (r: &JsonMap)
        ensures
            r@ == self.values(),
    {
        &self.json_values
    }

    /// The result: the value named by the result name, or JSON `null` where there is none.
    pub fn get_result(&self) -> (r: serde_json::Value)
        ensures
            self.values().contains_key(self.result_name()) ==> r == self.values()[self.result_name()],
            !self.values().contains_key(self.result_name()) ==> json_is_null(r),
    {
        match self.json_values.get(self.result_name.as_str()) {
            Some(v) => json_clone(v),
            None => json_null(),
        }
    }
}

} // verus!
