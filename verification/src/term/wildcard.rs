use crate::json::{
    field_key, jv, key_or_empty, opt_bool, opt_dec, present, push_entry, wrap_key, Decimal, JVal,
    Json,
};
use crate::misc::rewrite::{opt_rewrite, Rewrite};
use vstd::prelude::*;

verus! {

broadcast use crate::json::lemma_present_push;

/// The attribute object of a wildcard query.
#[derive(Debug)]
pub struct WildcardValue {
    pub value: String,
    pub boost: Option<Decimal>,
    pub case_insensitive: Option<bool>,
    pub rewrite: Option<Rewrite>,
}

/// Matches documents against a wildcard pattern, keyed by the field name.
#[derive(Debug)]
pub struct Wildcard {
    pub field: Option<String>,
    pub value: WildcardValue,
}

impl Wildcard {
    pub fn new() -> (r: Self)
        ensures
            r.field is None,
            r.value.value@ == Seq::<char>::empty(),
            r.value.boost is None,
            r.value.case_insensitive is None,
            r.value.rewrite is None,
    {
        Wildcard {
            field: None,
            value: WildcardValue {
                value: String::new(),
                boost: None,
                case_insensitive: None,
                rewrite: None,
            },
        }
    }

    pub fn field(self, field: String) -> (r: Self)
        ensures
            r == (Wildcard { field: Some(field), ..self }),
    {
        Wildcard { field: Some(field), ..self }
    }

    pub fn value(self, value: String) -> (r: Self)
        ensures
            r == (Wildcard { value: WildcardValue { value, ..self.value }, ..self }),
    {
        Wildcard { value: WildcardValue { value, ..self.value }, ..self }
    }

    pub fn boost(self, boost: Decimal) -> (r: Self)
        ensures
            r == (Wildcard { value: WildcardValue { boost: Some(boost), ..self.value }, ..self }),
    {
        Wildcard { value: WildcardValue { boost: Some(boost), ..self.value }, ..self }
    }

    pub fn case_insensitive(self, case_insensitive: bool) -> (r: Self)
        ensures
            r == (Wildcard {
                value: WildcardValue { case_insensitive: Some(case_insensitive), ..self.value },
                ..self
            }),
    {
        Wildcard {
            value: WildcardValue { case_insensitive: Some(case_insensitive), ..self.value },
            ..self
        }
    }

    pub fn rewrite(self, rewrite: Rewrite) -> (r: Self)
        ensures
            r == (Wildcard {
                value: WildcardValue { rewrite: Some(rewrite), ..self.value },
                ..self
            }),
    {
        Wildcard { value: WildcardValue { rewrite: Some(rewrite), ..self.value }, ..self }
    }

    pub open spec fn slots(self) -> Seq<(Seq<char>, Option<JVal>)> {
        Seq::empty().push(("value"@, Some(JVal::Str(self.value.value@)))).push(
            ("boost"@, opt_dec(self.value.boost)),
        ).push(("case_insensitive"@, opt_bool(self.value.case_insensitive))).push(
            ("rewrite"@, opt_rewrite(self.value.rewrite)),
        )
    }

    pub open spec fn jval(self) -> JVal {
        JVal::Obj(
            Seq::empty().push((field_key(self.field), JVal::Obj(present(self.slots())))),
        )
    }

    pub fn to_json(self) -> (r: Json)
        ensures
            jv(r) == self.jval(),
    {
        let mut es: Vec<(String, Json)> = Vec::new();
        push_entry(&mut es, "value", Json::Str(self.value.value));
        if let Some(b) = self.value.boost {
            push_entry(&mut es, "boost", Json::Num(b));
        }
        if let Some(c) = self.value.case_insensitive {
            push_entry(&mut es, "case_insensitive", Json::Bool(c));
        }
        if let Some(w) = self.value.rewrite {
            push_entry(&mut es, "rewrite", w.to_json());
        }
        wrap_key(key_or_empty(self.field), Json::Obj(es))
    }
}

} // verus!
