use crate::json::{
    jv, opt_dec, opt_str, present, push_entry, push_key_entry, Decimal, JVal, Json,
};
use crate::term::term_type::{term_list_jval, terms_to_json, TermType};
use vstd::prelude::*;

verus! {

broadcast use crate::json::lemma_present_push;

/// Where a terms query reads its term list from another stored document.
#[derive(Debug)]
pub struct TermsLookup {
    pub index: String,
    pub id: String,
    pub path: String,
    pub routing: Option<String>,
}

impl TermsLookup {
    pub fn new(index: String, id: String, path: String) -> (r: Self)
        ensures
            r == (TermsLookup { index, id, path, routing: None }),
    {
        TermsLookup { index, id, path, routing: None }
    }

    pub fn routing(self, routing: String) -> (r: Self)
        ensures
            r == (TermsLookup { routing: Some(routing), ..self }),
    {
        TermsLookup { routing: Some(routing), ..self }
    }

    pub open spec fn slots(self) -> Seq<(Seq<char>, Option<JVal>)> {
        Seq::empty().push(("index"@, Some(JVal::Str(self.index@)))).push(
            ("id"@, Some(JVal::Str(self.id@))),
        ).push(("path"@, Some(JVal::Str(self.path@)))).push(("routing"@, opt_str(self.routing)))
    }

    pub open spec fn jval(self) -> JVal {
        JVal::Obj(present(self.slots()))
    }

    pub fn to_json(self) -> (r: Json)
        ensures
            jv(r) == self.jval(),
    {
        let mut es: Vec<(String, Json)> = Vec::new();
        push_entry(&mut es, "index", Json::Str(self.index));
        push_entry(&mut es, "id", Json::Str(self.id));
        push_entry(&mut es, "path", Json::Str(self.path));
        if let Some(s) = self.routing {
            push_entry(&mut es, "routing", Json::Str(s));
        }
        Json::Obj(es)
    }
}

/// The two disjoint modes of a terms query: an inline term list, or a lookup
/// into another document.
#[derive(Debug)]
pub enum TermsClause {
    Query(Vec<TermType>),
    Lookup(TermsLookup),
}

impl TermsClause {
    pub open spec fn jval(self) -> JVal {
        match self {
            TermsClause::Query(values) => JVal::Arr(term_list_jval(values@)),
            TermsClause::Lookup(l) => l.jval(),
        }
    }
}

/// Matches documents holding any of a list of terms.  The active mode's
/// entry sits under the field name, with an optional `boost` as a sibling.
#[derive(Debug)]
pub struct Terms {
    pub field: String,
    pub clause: TermsClause,
    pub boost: Option<Decimal>,
}

impl Terms {
    pub fn new_with_terms_query(field_name: String, values: Vec<TermType>) -> (r: Self)
        ensures
            r == (Terms { field: field_name, clause: TermsClause::Query(values), boost: None }),
    {
        Terms { field: field_name, clause: TermsClause::Query(values), boost: None }
    }

    pub fn new_with_terms_lookup(field_name: String, values: TermsLookup) -> (r: Self)
        ensures
            r == (Terms { field: field_name, clause: TermsClause::Lookup(values), boost: None }),
    {
        Terms { field: field_name, clause: TermsClause::Lookup(values), boost: None }
    }

    pub fn boost(self, boost: Decimal) -> (r: Self)
        ensures
            r == (Terms { boost: Some(boost), ..self }),
    {
        Terms { boost: Some(boost), ..self }
    }

    pub open spec fn slots(self) -> Seq<(Seq<char>, Option<JVal>)> {
        Seq::empty().push((self.field@, Some(self.clause.jval()))).push(
            ("boost"@, opt_dec(self.boost)),
        )
    }

    pub open spec fn jval(self) -> JVal {
        JVal::Obj(present(self.slots()))
    }

    pub fn to_json(self) -> (r: Json)
        ensures
            jv(r) == self.jval(),
    {
        let mut es: Vec<(String, Json)> = Vec::new();
        let clause = match self.clause {
            TermsClause::Query(values) => terms_to_json(values),
            TermsClause::Lookup(l) => l.to_json(),
        };
        push_key_entry(&mut es, self.field, clause);
        if let Some(b) = self.boost {
            push_entry(&mut es, "boost", Json::Num(b));
        }
        Json::Obj(es)
    }
}

} // verus!
