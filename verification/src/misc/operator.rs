use crate::json::{jv, JVal, Json};
use vstd::prelude::*;

verus! {

/// How the terms of an analysed query combine.
#[derive(Clone, Copy, Debug)]
pub enum Operator {
    And,
    Or,
}

impl Operator {
    /// The fixed lowercase wire token of each variant.
    pub open spec fn token(self) -> Seq<char> {
        match self {
            Operator::And => "and"@,
            Operator::Or => "or"@,
        }
    }

    pub open spec fn jval(self) -> JVal {
        JVal::Str(self.token())
    }

    pub fn to_json(self) -> (r: Json)
        ensures
            jv(r) == self.jval(),
    {
        match self {
            Operator::And => Json::text("and"),
            Operator::Or => Json::text("or"),
        }
    }
}

pub open spec fn opt_operator(o: Option<Operator>) -> Option<JVal> {
    match o {
        Some(x) => Some(x.jval()),
        None => None,
    }
}


pub fn operator_slot(o: Option<Operator>) -> (r: Option<Json>)
    ensures
        crate::json::opt_json(r) == opt_operator(o),
{
    match o {
        Some(x) => Some(x.to_json()),
        None => None,
    }
}

} // verus!
