use crate::json::{jv, JVal, Json};
use vstd::prelude::*;

verus! {

/// The operator classes a regular-expression query may enable, each rendered
/// as its fixed uppercase token.
#[derive(Clone, Copy, Debug)]
pub enum RegexpFlag {
    All,
    Empty,
    Complement,
    Interval,
    Intersection,
    AnyString,
    NoFlag,
}

impl RegexpFlag {
    pub open spec fn token(self) -> Seq<char> {
        match self {
            RegexpFlag::All => "ALL"@,
            RegexpFlag::Empty => "EMPTY"@,
            RegexpFlag::Complement => "COMPLEMENT"@,
            RegexpFlag::Interval => "INTERVAL"@,
            RegexpFlag::Intersection => "INTERSECTION"@,
            RegexpFlag::AnyString => "ANYSTRING"@,
            RegexpFlag::NoFlag => "NONE"@,
        }
    }

    pub open spec fn jval(self) -> JVal {
        JVal::Str(self.token())
    }

    pub fn to_json(self) -> (r: Json)
        ensures
            jv(r) == self.jval(),
    {
        match self {
            RegexpFlag::All => Json::text("ALL"),
            RegexpFlag::Empty => Json::text("EMPTY"),
            RegexpFlag::Complement => Json::text("COMPLEMENT"),
            RegexpFlag::Interval => Json::text("INTERVAL"),
            RegexpFlag::Intersection => Json::text("INTERSECTION"),
            RegexpFlag::AnyString => Json::text("ANYSTRING"),
            RegexpFlag::NoFlag => Json::text("NONE"),
        }
    }
}

pub open spec fn opt_regexp_flag(o: Option<RegexpFlag>) -> Option<JVal> {
    match o {
        Some(x) => Some(x.jval()),
        None => None,
    }
}


pub fn regexp_flag_slot(o: Option<RegexpFlag>) -> (r: Option<Json>)
    ensures
        crate::json::opt_json(r) == opt_regexp_flag(o),
{
    match o {
        Some(x) => Some(x.to_json()),
        None => None,
    }
}

} // verus!
