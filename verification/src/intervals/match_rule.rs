use crate::intervals::filter::{opt_filter, FilterRule};
use crate::json::{jv, opt_bool, opt_i64, opt_str, present, push_entry, JVal, Json};
use vstd::prelude::*;

verus! {

broadcast use crate::json::lemma_present_push;

/// An interval rule matching analysed text, with an optional nested filter.
#[derive(Debug)]
pub struct MatchRule {
    pub query: String,
    pub analyzer: Option<String>,
    pub max_gaps: Option<i64>,
    pub ordered: Option<bool>,
    pub use_field: Option<String>,
    pub filter: Option<Box<FilterRule>>,
}

impl MatchRule {
    pub fn new() -> (r: Self)
        ensures
            r.query@ == Seq::<char>::empty(),
            r.analyzer is None,
            r.max_gaps is None,
            r.ordered is None,
            r.use_field is None,
            r.filter is None,
    {
        MatchRule {
            query: String::new(),
            analyzer: None,
            max_gaps: None,
            ordered: None,
            use_field: None,
            filter: None,
        }
    }

    pub fn query(self, query: String) -> (r: Self)
        ensures
            r == (MatchRule { query, ..self }),
    {
        MatchRule { query, ..self }
    }

    pub fn analyzer(self, analyzer: String) -> (r: Self)
        ensures
            r == (MatchRule { analyzer: Some(analyzer), ..self }),
    {
        MatchRule { analyzer: Some(analyzer), ..self }
    }

    pub fn max_gaps(self, max_gaps: i64) -> (r: Self)
        ensures
            r == (MatchRule { max_gaps: Some(max_gaps), ..self }),
    {
        MatchRule { max_gaps: Some(max_gaps), ..self }
    }

    pub fn ordered(self, ordered: bool) -> (r: Self)
        ensures
            r == (MatchRule { ordered: Some(ordered), ..self }),
    {
        MatchRule { ordered: Some(ordered), ..self }
    }

    pub fn use_field(self, use_field: String) -> (r: Self)
        ensures
            r == (MatchRule { use_field: Some(use_field), ..self }),
    {
        MatchRule { use_field: Some(use_field), ..self }
    }

    pub fn filter(self, filter: FilterRule) -> (r: Self)
        ensures
            r == (MatchRule { filter: Some(Box::new(filter)), ..self }),
    {
        MatchRule { filter: Some(Box::new(filter)), ..self }
    }

    pub open spec fn slots(self) -> Seq<(Seq<char>, Option<JVal>)>
        decreases self, 0int,
    {
        Seq::empty().push(("query"@, Some(JVal::Str(self.query@)))).push(
            ("analyzer"@, opt_str(self.analyzer)),
        ).push(("max_gaps"@, opt_i64(self.max_gaps))).push(
            ("ordered"@, opt_bool(self.ordered)),
        ).push(("use_field"@, opt_str(self.use_field))).push(
            ("filter"@, opt_filter(self.filter)),
        )
    }

    pub open spec fn jval(self) -> JVal
        decreases self, 1int,
    {
        JVal::Obj(present(self.slots()))
    }

    pub fn to_json(self) -> (r: Json)
        ensures
            jv(r) == self.jval(),
        decreases self,
    {
        let mut es: Vec<(String, Json)> = Vec::new();
        push_entry(&mut es, "query", Json::Str(self.query));
        if let Some(s) = self.analyzer {
            push_entry(&mut es, "analyzer", Json::Str(s));
        }
        if let Some(g) = self.max_gaps {
            push_entry(&mut es, "max_gaps", Json::Int(g as i128));
        }
        if let Some(o) = self.ordered {
            push_entry(&mut es, "ordered", Json::Bool(o));
        }
        if let Some(s) = self.use_field {
            push_entry(&mut es, "use_field", Json::Str(s));
        }
        if let Some(f) = self.filter {
            push_entry(&mut es, "filter", (*f).to_json());
        }
        Json::Obj(es)
    }
}

} // verus!
