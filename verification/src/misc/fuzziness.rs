use crate::json::{jv, JVal, Json};
use vstd::prelude::*;

verus! {

/// An edit-distance bound: the literal token `AUTO`, or a fixed distance that
/// renders as a bare integer.
#[derive(Clone, Copy, Debug)]
pub enum Fuzziness {
    Auto,
    Uint(u64),
}

impl Fuzziness {
    pub open spec fn jval(self) -> JVal {
        match self {
            Fuzziness::Auto => JVal::Str("AUTO"@),
            Fuzziness::Uint(u) => JVal::UInt(u as u128),
        }
    }

    pub fn to_json(self) -> (r: Json)
        ensures
            jv(r) == self.jval(),
    {
        match self {
            Fuzziness::Auto => Json::text("AUTO"),
            Fuzziness::Uint(u) => Json::uint(u),
        }
    }
}

pub open spec fn opt_fuzziness(o: Option<Fuzziness>) -> Option<JVal> {
    match o {
        Some(x) => Some(x.jval()),
        None => None,
    }
}


pub fn fuzziness_slot(o: Option<Fuzziness>) -> (r: Option<Json>)
    ensures
        crate::json::opt_json(r) == opt_fuzziness(o),
{
    match o {
        Some(x) => Some(x.to_json()),
        None => None,
    }
}

} // verus!
