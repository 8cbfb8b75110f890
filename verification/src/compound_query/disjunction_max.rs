use crate::json::{jv, opt_dec, present, push_entry, Decimal, JVal, Json};
use crate::misc::query_field::{qf_list_jval, qfs_to_json, QueryField};
use vstd::prelude::*;

verus! {

broadcast use crate::json::lemma_present_push;

/// Scores by the best of its sub-queries, with an optional tie breaker for
/// the others.
#[derive(Debug)]
pub struct DisMax {
    pub queries: Vec<QueryField>,
    pub tie_breaker: Option<Decimal>,
}

impl DisMax {
    pub fn new(queries: Vec<QueryField>) -> (r: Self)
        ensures
            r == (DisMax { queries, tie_breaker: None }),
    {
        DisMax { queries, tie_breaker: None }
    }

    pub fn tie_breaker(self, tie_breaker: Decimal) -> (r: Self)
        ensures
            r == (DisMax { tie_breaker: Some(tie_breaker), ..self }),
    {
        DisMax { tie_breaker: Some(tie_breaker), ..self }
    }

    pub open spec fn slots(self) -> Seq<(Seq<char>, Option<JVal>)>
        decreases self, 0int,
    {
        Seq::empty().push(("queries"@, Some(JVal::Arr(qf_list_jval(self.queries@))))).push(
            ("tie_breaker"@, opt_dec(self.tie_breaker)),
        )
    }

    pub open spec fn jval(self) -> JVal
        decreases self, 1int,
    {
        JVal::Obj(present(self.slots()))
    }

    pub fn to_json(self) -> (r: Json)
        ensures
            jv(r) == self.jval(),
        decreases self, 1int,
    {
        let mut es: Vec<(String, Json)> = Vec::new();
        push_entry(&mut es, "queries", qfs_to_json(self.queries));
        if let Some(d) = self.tie_breaker {
            push_entry(&mut es, "tie_breaker", Json::Num(d));
        }
        Json::Obj(es)
    }
}

} // verus!
