use crate::json::{jv, opt_dec, present, push_entry, Decimal, JVal, Json};
use crate::term::term_type::{term_list_jval, terms_to_json, TermType};
use vstd::prelude::*;

verus! {

broadcast use crate::json::lemma_present_push;

/// Matches documents by their identifiers.
#[derive(Debug)]
pub struct IDs {
    pub values: Vec<TermType>,
    pub boost: Option<Decimal>,
}

impl IDs {
    pub fn new() -> (r: Self)
        ensures
            r.values@ == Seq::<TermType>::empty(),
            r.boost is None,
    {
        IDs { values: Vec::new(), boost: None }
    }

    pub fn values(self, values: Vec<TermType>) -> (r: Self)
        ensures
            r == (IDs { values, ..self }),
    {
        IDs { values, ..self }
    }

    pub fn boost(self, boost: Decimal) -> (r: Self)
        ensures
            r == (IDs { boost: Some(boost), ..self }),
    {
        IDs { boost: Some(boost), ..self }
    }

    pub open spec fn slots(self) -> Seq<(Seq<char>, Option<JVal>)> {
        Seq::empty().push(("values"@, Some(JVal::Arr(term_list_jval(self.values@))))).push(
            ("boost"@, opt_dec(self.boost)),
        )
    }

    pub open spec fn jval(self) -> JVal {
        JVal::Obj(present(self.slots()))
    }

    pub fn to_json(self) -> (r: Json)
        ensures
            jv(r) == self.jval(),
    {
        let mut es: Vec<(String, Json)> = Vec::new();
        push_entry(&mut es, "values", terms_to_json(self.values));
        if let Some(b) = self.boost {
            push_entry(&mut es, "boost", Json::Num(b));
        }
        Json::Obj(es)
    }
}

} // verus!
