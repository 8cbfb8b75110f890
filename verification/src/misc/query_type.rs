use crate::json::{jv, JVal, Json};
use vstd::prelude::*;

verus! {

/// The matching strategy of a multi-field query, rendered in snake case
/// under the wire name `type`.
#[derive(Clone, Copy, Debug)]
pub enum Type {
    BestFields,
    MostFields,
    CrossFields,
    Phrase,
    PhrasePrefix,
}

impl Type {
    pub open spec fn token(self) -> Seq<char> {
        match self {
            Type::BestFields => "best_fields"@,
            Type::MostFields => "most_fields"@,
            Type::CrossFields => "cross_fields"@,
            Type::Phrase => "phrase"@,
            Type::PhrasePrefix => "phrase_prefix"@,
        }
    }

    pub open spec fn jval(self) -> JVal {
        JVal::Str(self.token())
    }

    pub fn to_json(self) -> (r: Json)
        ensures
            jv(r) == self.jval(),
    {
        match self {
            Type::BestFields => Json::text("best_fields"),
            Type::MostFields => Json::text("most_fields"),
            Type::CrossFields => Json::text("cross_fields"),
            Type::Phrase => Json::text("phrase"),
            Type::PhrasePrefix => Json::text("phrase_prefix"),
        }
    }
}

pub open spec fn opt_type(o: Option<Type>) -> Option<JVal> {
    match o {
        Some(x) => Some(x.jval()),
        None => None,
    }
}


pub fn type_slot(o: Option<Type>) -> (r: Option<Json>)
    ensures
        crate::json::opt_json(r) == opt_type(o),
{
    match o {
        Some(x) => Some(x.to_json()),
        None => None,
    }
}

} // verus!
