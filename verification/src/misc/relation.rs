use crate::json::{jv, JVal, Json};
use vstd::prelude::*;

verus! {

/// How a range query relates to a range field, rendered uppercase.
#[derive(Clone, Copy, Debug)]
pub enum Relation {
    WithIn,
    Contains,
    Intersects,
}

impl Relation {
    pub open spec fn token(self) -> Seq<char> {
        match self {
            Relation::WithIn => "WITHIN"@,
            Relation::Contains => "CONTAINS"@,
            Relation::Intersects => "INTERSECTS"@,
        }
    }

    pub open spec fn jval(self) -> JVal {
        JVal::Str(self.token())
    }

    pub fn to_json(self) -> (r: Json)
        ensures
            jv(r) == self.jval(),
    {
        match self {
            Relation::WithIn => Json::text("WITHIN"),
            Relation::Contains => Json::text("CONTAINS"),
            Relation::Intersects => Json::text("INTERSECTS"),
        }
    }
}

pub open spec fn opt_relation(o: Option<Relation>) -> Option<JVal> {
    match o {
        Some(x) => Some(x.jval()),
        None => None,
    }
}


pub fn relation_slot(o: Option<Relation>) -> (r: Option<Json>)
    ensures
        crate::json::opt_json(r) == opt_relation(o),
{
    match o {
        Some(x) => Some(x.to_json()),
        None => None,
    }
}

} // verus!
