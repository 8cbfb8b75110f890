use crate::json::{
    jv, opt_json, opt_usize, present, push_entry, render_jval, str_list_jval, strings_to_json,
    JVal, Json,
};
use crate::misc::query_field::QueryField;
use vstd::prelude::*;

verus! {

broadcast use crate::json::lemma_present_push;

/// The value of the optional query slot of a request.
pub open spec fn opt_query_field(o: Option<QueryField>) -> Option<JVal> {
    match o {
        Some(q) => Some(q.jval()),
        None => None,
    }
}

/// The value of the optional source-field list of a request.
pub open spec fn opt_str_list(o: Option<Vec<String>>) -> Option<JVal> {
    match o {
        Some(v) => Some(JVal::Arr(str_list_jval(v@))),
        None => None,
    }
}

/// The top-level request: pagination, the selected source fields, one
/// query tree, and an optional aggregation payload.  Every unset attribute
/// is omitted; the source list goes out under the wire name `_source`.
#[derive(Debug)]
pub struct Query {
    pub from: Option<usize>,
    pub size: Option<usize>,
    pub source: Option<Vec<String>>,
    pub query: Option<QueryField>,
    pub aggs: Option<Json>,
}

impl Query {
    pub fn new() -> (r: Self)
        ensures
            r.from is None,
            r.size is None,
            r.source is None,
            r.query is None,
            r.aggs is None,
    {
        Query { from: None, size: None, source: None, query: None, aggs: None }
    }

    pub fn source(self, source: Vec<String>) -> (r: Self)
        ensures
            r == (Query { source: Some(source), ..self }),
    {
        Query { source: Some(source), ..self }
    }

    pub fn query(self, query: QueryField) -> (r: Self)
        ensures
            r == (Query { query: Some(query), ..self }),
    {
        Query { query: Some(query), ..self }
    }

    pub fn from(self, from: usize) -> (r: Self)
        ensures
            r == (Query { from: Some(from), ..self }),
    {
        Query { from: Some(from), ..self }
    }

    pub fn size(self, size: usize) -> (r: Self)
        ensures
            r == (Query { size: Some(size), ..self }),
    {
        Query { size: Some(size), ..self }
    }

    pub fn aggs(self, aggs: Json) -> (r: Self)
        ensures
            r == (Query { aggs: Some(aggs), ..self }),
    {
        Query { aggs: Some(aggs), ..self }
    }

    pub open spec fn slots(self) -> Seq<(Seq<char>, Option<JVal>)> {
        Seq::empty().push(("from"@, opt_usize(self.from))).push(
            ("size"@, opt_usize(self.size)),
        ).push(("_source"@, opt_str_list(self.source))).push(
            ("query"@, opt_query_field(self.query)),
        ).push(("aggs"@, opt_json(self.aggs)))
    }

    pub open spec fn jval(self) -> JVal {
        JVal::Obj(present(self.slots()))
    }

    pub fn to_json(self) -> (r: Json)
        ensures
            jv(r) == self.jval(),
    {
        let mut es: Vec<(String, Json)> = Vec::new();
        if let Some(f) = self.from {
            push_entry(&mut es, "from", Json::UInt(f as u128));
        }
        if let Some(s) = self.size {
            push_entry(&mut es, "size", Json::UInt(s as u128));
        }
        if let Some(v) = self.source {
            push_entry(&mut es, "_source", strings_to_json(v));
        }
        if let Some(q) = self.query {
            push_entry(&mut es, "query", q.to_json());
        }
        if let Some(a) = self.aggs {
            push_entry(&mut es, "aggs", a);
        }
        Json::Obj(es)
    }

    /// The exact wire text of the whole request.
    pub fn to_wire(self) -> (r: String)
        ensures
            r@ == render_jval(self.jval()),
    {
        let j = self.to_json();
        j.render()
    }
}

} // verus!
