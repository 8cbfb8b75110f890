use crate::intervals::filter::{opt_filter, FilterRule};
use crate::intervals::interval_rule::{rule_list_jval, rules_to_json, IntervalRule};
use crate::json::{jv, opt_bool, opt_i64, present, push_entry, JVal, Json};
use vstd::prelude::*;

verus! {

broadcast use crate::json::lemma_present_push;

/// An interval rule that all of its child rules must match, in order when
/// `ordered` is set.
#[derive(Debug)]
pub struct AllOfRule {
    pub interval: Vec<IntervalRule>,
    pub filter: Option<Box<FilterRule>>,
    pub max_gaps: Option<i64>,
    pub ordered: Option<bool>,
}

impl AllOfRule {
    pub fn new() -> (r: Self)
        ensures
            r.interval@ == Seq::<IntervalRule>::empty(),
            r.filter is None,
            r.max_gaps is None,
            r.ordered is None,
    {
        AllOfRule { interval: Vec::new(), filter: None, max_gaps: None, ordered: None }
    }

    pub fn intervals(self, intervals: Vec<IntervalRule>) -> (r: Self)
        ensures
            r == (AllOfRule { interval: intervals, ..self }),
    {
        AllOfRule { interval: intervals, ..self }
    }

    pub fn filter(self, filter: FilterRule) -> (r: Self)
        ensures
            r == (AllOfRule { filter: Some(Box::new(filter)), ..self }),
    {
        AllOfRule { filter: Some(Box::new(filter)), ..self }
    }

    pub fn max_gaps(self, max_gaps: i64) -> (r: Self)
        ensures
            r == (AllOfRule { max_gaps: Some(max_gaps), ..self }),
    {
        AllOfRule { max_gaps: Some(max_gaps), ..self }
    }

    pub fn ordered(self, ordered: bool) -> (r: Self)
        ensures
            r == (AllOfRule { ordered: Some(ordered), ..self }),
    {
        AllOfRule { ordered: Some(ordered), ..self }
    }

    pub open spec fn slots(self) -> Seq<(Seq<char>, Option<JVal>)>
        decreases self, 0int,
    {
        Seq::empty().push(("interval"@, Some(JVal::Arr(rule_list_jval(self.interval@))))).push(
            ("filter"@, opt_filter(self.filter)),
        ).push(("max_gaps"@, opt_i64(self.max_gaps))).push(("ordered"@, opt_bool(self.ordered)))
    }

    pub open spec fn jval(self) -> JVal
        decreases self, 1int,
    {
        JVal::Obj(present(self.slots()))
    }

    pub fn to_json(self) -> (r: Json)
        ensures
            jv(r) == self.jval(),
        decreases self,
    {
        let mut es: Vec<(String, Json)> = Vec::new();
        push_entry(&mut es, "interval", rules_to_json(self.interval));
        if let Some(f) = self.filter {
            push_entry(&mut es, "filter", (*f).to_json());
        }
        if let Some(g) = self.max_gaps {
            push_entry(&mut es, "max_gaps", Json::Int(g as i128));
        }
        if let Some(o) = self.ordered {
            push_entry(&mut es, "ordered", Json::Bool(o));
        }
        Json::Obj(es)
    }
}

} // verus!
