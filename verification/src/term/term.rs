use crate::json::{jv, opt_bool, opt_dec, present, push_entry, wrap_key, Decimal, JVal, Json};
use crate::term::term_type::TermType;
use vstd::prelude::*;

verus! {

broadcast use crate::json::lemma_present_push;

/// The attribute object of a term query.
#[derive(Debug)]
pub struct TermInner {
    pub value: TermType,
    pub boost: Option<Decimal>,
    pub case_insensitive: Option<bool>,
}

/// An exact-value query, keyed by its field name.
#[derive(Debug)]
pub struct Term {
    pub field: String,
    pub value: TermInner,
}

impl Term {
    pub fn new(field: String, value: TermType) -> (r: Self)
        ensures
            r == (Term {
                field,
                value: TermInner { value, boost: None, case_insensitive: None },
            }),
    {
        Term { field, value: TermInner { value, boost: None, case_insensitive: None } }
    }

    pub fn boost(self, boost: Decimal) -> (r: Self)
        ensures
            r == (Term { value: TermInner { boost: Some(boost), ..self.value }, ..self }),
    {
        Term { value: TermInner { boost: Some(boost), ..self.value }, ..self }
    }

    pub fn case_insensitive(self, case_insensitive: bool) -> (r: Self)
        ensures
            r == (Term {
                value: TermInner { case_insensitive: Some(case_insensitive), ..self.value },
                ..self
            }),
    {
        Term {
            value: TermInner { case_insensitive: Some(case_insensitive), ..self.value },
            ..self
        }
    }

    pub open spec fn slots(self) -> Seq<(Seq<char>, Option<JVal>)> {
        Seq::empty().push(("value"@, Some(self.value.value.jval()))).push(
            ("boost"@, opt_dec(self.value.boost)),
        ).push(("case_insensitive"@, opt_bool(self.value.case_insensitive)))
    }

    /// The whole node: one entry under the field name.
    pub open spec fn jval(self) -> JVal {
        JVal::Obj(Seq::empty().push((self.field@, JVal::Obj(present(self.slots())))))
    }

    pub fn to_json(self) -> (r: Json)
        ensures
            jv(r) == self.jval(),
    {
        let mut es: Vec<(String, Json)> = Vec::new();
        push_entry(&mut es, "value", self.value.value.to_json());
        if let Some(b) = self.value.boost {
            push_entry(&mut es, "boost", Json::Num(b));
        }
        if let Some(c) = self.value.case_insensitive {
            push_entry(&mut es, "case_insensitive", Json::Bool(c));
        }
        wrap_key(self.field, Json::Obj(es))
    }
}

} // verus!
