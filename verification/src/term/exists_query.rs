use crate::json::{jv, opt_dec, present, push_entry, Decimal, JVal, Json};
use vstd::prelude::*;

verus! {

broadcast use crate::json::lemma_present_push;

/// Matches documents that hold any indexed value for a field.
#[derive(Debug)]
pub struct Exists {
    pub field: String,
    pub boost: Option<Decimal>,
}

impl Exists {
    pub fn new() -> (r: Self)
        ensures
            r.field@ == Seq::<char>::empty(),
            r.boost is None,
    {
        Exists { field: String::new(), boost: None }
    }

    pub fn field(self, field: String) -> (r: Self)
        ensures
            r == (Exists { field, ..self }),
    {
        Exists { field, ..self }
    }

    pub fn boost(self, boost: Decimal) -> (r: Self)
        ensures
            r == (Exists { boost: Some(boost), ..self }),
    {
        Exists { boost: Some(boost), ..self }
    }

    pub open spec fn slots(self) -> Seq<(Seq<char>, Option<JVal>)> {
        Seq::empty().push(("field"@, Some(JVal::Str(self.field@)))).push(
            ("boost"@, opt_dec(self.boost)),
        )
    }

    pub open spec fn jval(self) -> JVal {
        JVal::Obj(present(self.slots()))
    }

    pub fn to_json(self) -> (r: Json)
        ensures
            jv(r) == self.jval(),
    {
        let mut es: Vec<(String, Json)> = Vec::new();
        push_entry(&mut es, "field", Json::Str(self.field));
        if let Some(b) = self.boost {
            push_entry(&mut es, "boost", Json::Num(b));
        }
        Json::Obj(es)
    }
}

} // verus!
