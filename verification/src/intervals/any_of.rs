use crate::intervals::filter::{opt_filter, FilterRule};
use crate::intervals::interval_rule::{rule_list_jval, rules_to_json, IntervalRule};
use crate::json::{jv, present, push_entry, JVal, Json};
use vstd::prelude::*;

verus! {

broadcast use crate::json::lemma_present_push;

/// An interval rule that any one of its child rules may match.
#[derive(Debug)]
pub struct AnyOfRule {
    pub interval: Vec<IntervalRule>,
    pub filter: Option<Box<FilterRule>>,
}

impl AnyOfRule {
    pub fn new() -> (r: Self)
        ensures
            r.interval@ == Seq::<IntervalRule>::empty(),
            r.filter is None,
    {
        AnyOfRule { interval: Vec::new(), filter: None }
    }

    pub fn intervals(self, intervals: Vec<IntervalRule>) -> (r: Self)
        ensures
            r == (AnyOfRule { interval: intervals, ..self }),
    {
        AnyOfRule { interval: intervals, ..self }
    }

    pub fn filter(self, filter: FilterRule) -> (r: Self)
        ensures
            r == (AnyOfRule { filter: Some(Box::new(filter)), ..self }),
    {
        AnyOfRule { filter: Some(Box::new(filter)), ..self }
    }

    pub open spec fn slots(self) -> Seq<(Seq<char>, Option<JVal>)>
        decreases self, 0int,
    {
        Seq::empty().push(("interval"@, Some(JVal::Arr(rule_list_jval(self.interval@))))).push(
            ("filter"@, opt_filter(self.filter)),
        )
    }

    pub open spec fn jval(self) -> JVal
        decreases self, 1int,
    {
        JVal::Obj(present(self.slots()))
    }

    pub fn to_json(self) -> (r: Json)
        ensures
            jv(r) == self.jval(),
        decreases self,
    {
        let mut es: Vec<(String, Json)> = Vec::new();
        push_entry(&mut es, "interval", rules_to_json(self.interval));
        if let Some(f) = self.filter {
            push_entry(&mut es, "filter", (*f).to_json());
        }
        Json::Obj(es)
    }
}

} // verus!
