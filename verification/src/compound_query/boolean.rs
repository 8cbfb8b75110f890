use crate::json::{jv, opt_usize, present, push_entry, JVal, Json};
use crate::misc::query_field::{opt_qf_list, qfs_to_json, QueryField};
use vstd::prelude::*;

verus! {

broadcast use crate::json::lemma_present_push;

/// The boolean compound: up to four clause lists, each omitted entirely
/// when never set, and an optional minimum count of matching `should`
/// clauses.  Each setter overwrites its own list; the last write wins.
#[derive(Debug)]
pub struct Bool {
    pub must: Option<Vec<QueryField>>,
    pub must_not: Option<Vec<QueryField>>,
    pub filter: Option<Vec<QueryField>>,
    pub should: Option<Vec<QueryField>>,
    pub minimum_should_match: Option<usize>,
}

impl Bool {
    pub fn new() -> (r: Self)
        ensures
            r.must is None,
            r.must_not is None,
            r.filter is None,
            r.should is None,
            r.minimum_should_match is None,
    {
        Bool { must: None, must_not: None, should: None, filter: None, minimum_should_match: None }
    }

    pub fn must(self, must_value: Vec<QueryField>) -> (r: Self)
        ensures
            r == (Bool { must: Some(must_value), ..self }),
    {
        Bool { must: Some(must_value), ..self }
    }

    pub fn must_not(self, must_value: Vec<QueryField>) -> (r: Self)
        ensures
            r == (Bool { must_not: Some(must_value), ..self }),
    {
        Bool { must_not: Some(must_value), ..self }
    }

    pub fn should(self, must_value: Vec<QueryField>) -> (r: Self)
        ensures
            r == (Bool { should: Some(must_value), ..self }),
    {
        Bool { should: Some(must_value), ..self }
    }

    pub fn filter(self, filter_values: Vec<QueryField>) -> (r: Self)
        ensures
            r == (Bool { filter: Some(filter_values), ..self }),
    {
        Bool { filter: Some(filter_values), ..self }
    }

    pub fn minimum_should_match(self, minimum_should_match: usize) -> (r: Self)
        ensures
            r == (Bool { minimum_should_match: Some(minimum_should_match), ..self }),
    {
        Bool { minimum_should_match: Some(minimum_should_match), ..self }
    }

    pub open spec fn slots(self) -> Seq<(Seq<char>, Option<JVal>)>
        decreases self, 0int,
    {
        Seq::empty().push(("must"@, opt_qf_list(self.must))).push(
            ("must_not"@, opt_qf_list(self.must_not)),
        ).push(("filter"@, opt_qf_list(self.filter))).push(
            ("should"@, opt_qf_list(self.should)),
        ).push(("minimum_should_match"@, opt_usize(self.minimum_should_match)))
    }

    pub open spec fn jval(self) -> JVal
        decreases self, 1int,
    {
        JVal::Obj(present(self.slots()))
    }

    pub fn to_json(self) -> (r: Json)
        ensures
            jv(r) == self.jval(),
        decreases self, 1int,
    {
        let mut es: Vec<(String, Json)> = Vec::new();
        if let Some(v) = self.must {
            push_entry(&mut es, "must", qfs_to_json(v));
        }
        if let Some(v) = self.must_not {
            push_entry(&mut es, "must_not", qfs_to_json(v));
        }
        if let Some(v) = self.filter {
            push_entry(&mut es, "filter", qfs_to_json(v));
        }
        if let Some(v) = self.should {
            push_entry(&mut es, "should", qfs_to_json(v));
        }
        if let Some(m) = self.minimum_should_match {
            push_entry(&mut es, "minimum_should_match", Json::UInt(m as u128));
        }
        Json::Obj(es)
    }
}

} // verus!
