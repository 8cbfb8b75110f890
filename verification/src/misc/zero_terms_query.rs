use crate::json::{jv, JVal, Json};
use vstd::prelude::*;

verus! {

/// What a match query returns when the analyzer strips every term.
#[derive(Clone, Copy, Debug)]
pub enum ZeroTermsQuery {
    NoDocs,
    All,
}

impl ZeroTermsQuery {
    pub open spec fn token(self) -> Seq<char> {
        match self {
            ZeroTermsQuery::NoDocs => "none"@,
            ZeroTermsQuery::All => "all"@,
        }
    }

    pub open spec fn jval(self) -> JVal {
        JVal::Str(self.token())
    }

    pub fn to_json(self) -> (r: Json)
        ensures
            jv(r) == self.jval(),
    {
        match self {
            ZeroTermsQuery::NoDocs => Json::text("none"),
            ZeroTermsQuery::All => Json::text("all"),
        }
    }
}

pub open spec fn opt_zero_terms_query(o: Option<ZeroTermsQuery>) -> Option<JVal> {
    match o {
        Some(x) => Some(x.jval()),
        None => None,
    }
}


pub fn zero_terms_query_slot(o: Option<ZeroTermsQuery>) -> (r: Option<Json>)
    ensures
        crate::json::opt_json(r) == opt_zero_terms_query(o),
{
    match o {
        Some(x) => Some(x.to_json()),
        None => None,
    }
}

} // verus!
