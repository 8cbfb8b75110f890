use crate::json::{
    jv, opt_usize, present, push_entry, wrap_key, wrap_tag, JVal, Json,
};
use vstd::prelude::*;

verus! {

broadcast use crate::json::lemma_present_push;

/// A bucket aggregation: its payload goes out under `terms`, inside an
/// entry keyed by the aggregation name.
#[derive(Debug)]
pub struct Aggregates {
    pub field: String,
    pub value: Json,
}

impl Aggregates {
    pub fn new() -> (r: Self)
        ensures
            r.field@ == Seq::<char>::empty(),
            jv(r.value) == JVal::Null,
    {
        Aggregates { field: String::new(), value: Json::Null }
    }

    pub fn field(self, field: String) -> (r: Self)
        ensures
            r == (Aggregates { field, ..self }),
    {
        Aggregates { field, ..self }
    }

    pub fn value(self, value: Json) -> (r: Self)
        ensures
            r == (Aggregates { value, ..self }),
    {
        Aggregates { value, ..self }
    }

    pub open spec fn jval(self) -> JVal {
        JVal::Obj(
            Seq::empty().push(
                (self.field@, JVal::Obj(Seq::empty().push(("terms"@, jv(self.value))))),
            ),
        )
    }

    pub fn to_json(self) -> (r: Json)
        ensures
            jv(r) == self.jval(),
    {
        wrap_key(self.field, wrap_tag("terms", self.value))
    }
}

/// The payload of a terms bucket aggregation: the grouped field and an
/// optional bucket count.
#[derive(Debug)]
pub struct AggregateTermsValues {
    pub field: String,
    pub size: Option<usize>,
}

impl AggregateTermsValues {
    pub open spec fn slots(self) -> Seq<(Seq<char>, Option<JVal>)> {
        Seq::empty().push(("field"@, Some(JVal::Str(self.field@)))).push(
            ("size"@, opt_usize(self.size)),
        )
    }

    pub open spec fn jval(self) -> JVal {
        JVal::Obj(present(self.slots()))
    }

    pub fn to_json(self) -> (r: Json)
        ensures
            jv(r) == self.jval(),
    {
        let mut es: Vec<(String, Json)> = Vec::new();
        push_entry(&mut es, "field", Json::Str(self.field));
        if let Some(s) = self.size {
            push_entry(&mut es, "size", Json::UInt(s as u128));
        }
        Json::Obj(es)
    }
}

} // verus!
