use crate::json::{jv, opt_dec, present, push_entry, Decimal, JVal, Json};
use crate::misc::query_field::QueryField;
use vstd::prelude::*;

verus! {

broadcast use crate::json::lemma_present_push;

/// Gives every document matching the owned `filter` the same score.
#[derive(Debug)]
pub struct ConstantScore {
    pub filter: Box<QueryField>,
    pub boost: Option<Decimal>,
}

impl ConstantScore {
    pub fn new(filter: QueryField) -> (r: Self)
        ensures
            r == (ConstantScore { filter: Box::new(filter), boost: None }),
    {
        ConstantScore { filter: Box::new(filter), boost: None }
    }

    pub fn boost(self, boost: Decimal) -> (r: Self)
        ensures
            r == (ConstantScore { boost: Some(boost), ..self }),
    {
        ConstantScore { boost: Some(boost), ..self }
    }

    pub open spec fn slots(self) -> Seq<(Seq<char>, Option<JVal>)>
        decreases self, 0int,
    {
        Seq::empty().push(("filter"@, Some((*self.filter).jval()))).push(
            ("boost"@, opt_dec(self.boost)),
        )
    }

    pub open spec fn jval(self) -> JVal
        decreases self, 1int,
    {
        JVal::Obj(present(self.slots()))
    }

    pub fn to_json(self) -> (r: Json)
        ensures
            jv(r) == self.jval(),
        decreases self, 1int,
    {
        let mut es: Vec<(String, Json)> = Vec::new();
        push_entry(&mut es, "filter", (*self.filter).to_json());
        if let Some(b) = self.boost {
            push_entry(&mut es, "boost", Json::Num(b));
        }
        Json::Obj(es)
    }
}

} // verus!
