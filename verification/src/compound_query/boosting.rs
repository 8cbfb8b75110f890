use crate::json::{jv, opt_dec, present, push_entry, Decimal, JVal, Json};
use crate::misc::query_field::QueryField;
use vstd::prelude::*;

verus! {

broadcast use crate::json::lemma_present_push;

/// Demotes the documents matching `negative` while keeping those matching
/// `positive`; both sub-queries are required and owned by this node.
#[derive(Debug)]
pub struct Boosting {
    pub positive: Box<QueryField>,
    pub negative: Box<QueryField>,
    pub negative_boost: Option<Decimal>,
}

impl Boosting {
    pub fn new(positive: QueryField, negative: QueryField) -> (r: Self)
        ensures
            r == (Boosting {
                positive: Box::new(positive),
                negative: Box::new(negative),
                negative_boost: None,
            }),
    {
        Boosting {
            positive: Box::new(positive),
            negative: Box::new(negative),
            negative_boost: None,
        }
    }

    pub fn negative_boost(self, negative_boost: Decimal) -> (r: Self)
        ensures
            r == (Boosting { negative_boost: Some(negative_boost), ..self }),
    {
        Boosting { negative_boost: Some(negative_boost), ..self }
    }

    pub open spec fn slots(self) -> Seq<(Seq<char>, Option<JVal>)>
        decreases self, 0int,
    {
        Seq::empty().push(("positive"@, Some((*self.positive).jval()))).push(
            ("negative"@, Some((*self.negative).jval())),
        ).push(("negative_boost"@, opt_dec(self.negative_boost)))
    }

    pub open spec fn jval(self) -> JVal
        decreases self, 1int,
    {
        JVal::Obj(present(self.slots()))
    }

    pub fn to_json(self) -> (r: Json)
        ensures
            jv(r) == self.jval(),
        decreases self, 1int,
    {
        let mut es: Vec<(String, Json)> = Vec::new();
        push_entry(&mut es, "positive", (*self.positive).to_json());
        push_entry(&mut es, "negative", (*self.negative).to_json());
        if let Some(b) = self.negative_boost {
            push_entry(&mut es, "negative_boost", Json::Num(b));
        }
        Json::Obj(es)
    }
}

} // verus!
