use crate::intervals::interval_rule::IntervalRule;
use crate::json::{field_key, jv, key_or_empty, wrap_key, JVal, Json};
use vstd::prelude::*;

verus! {

/// The outer intervals node: one rule bound to one field name.  An unset
/// rule is emitted as `null`.
#[derive(Debug)]
pub struct Intervals {
    pub field: Option<String>,
    pub value: Option<IntervalRule>,
}

pub open spec fn rule_or_null(o: Option<IntervalRule>) -> JVal {
    match o {
        Some(x) => x.jval(),
        None => JVal::Null,
    }
}

impl Intervals {
    pub fn new() -> (r: Self)
        ensures
            r.field is None,
            r.value is None,
    {
        Intervals { field: None, value: None }
    }

    pub fn field(self, field: String) -> (r: Self)
        ensures
            r == (Intervals { field: Some(field), ..self }),
    {
        Intervals { field: Some(field), ..self }
    }

    pub fn intervals(self, interval: IntervalRule) -> (r: Self)
        ensures
            r == (Intervals { value: Some(interval), ..self }),
    {
        Intervals { value: Some(interval), ..self }
    }

    pub open spec fn jval(self) -> JVal {
        JVal::Obj(Seq::empty().push((field_key(self.field), rule_or_null(self.value))))
    }

    pub fn to_json(self) -> (r: Json)
        ensures
            jv(r) == self.jval(),
    {
        let inner = match self.value {
            Some(x) => x.to_json(),
            None => Json::Null,
        };
        wrap_key(key_or_empty(self.field), inner)
    }
}

} // verus!
