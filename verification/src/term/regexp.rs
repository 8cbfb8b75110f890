use crate::json::{
    field_key, jv, key_or_empty, opt_bool, opt_dec, opt_u64, present, push_entry, wrap_key,
    Decimal, JVal, Json,
};
use crate::misc::regexp_flag::{opt_regexp_flag, RegexpFlag};
use crate::misc::rewrite::{opt_rewrite, Rewrite};
use vstd::prelude::*;

verus! {

broadcast use crate::json::lemma_present_push;

/// The attribute object of a regular-expression query.
#[derive(Debug)]
pub struct RegexpValue {
    pub value: String,
    pub boost: Option<Decimal>,
    pub case_insensitive: Option<bool>,
    pub flags: Option<RegexpFlag>,
    pub max_determinized_states: Option<u64>,
    pub rewrite: Option<Rewrite>,
}

/// Matches documents against a regular expression, keyed by the field name.
#[derive(Debug)]
pub struct Regexp {
    pub field: Option<String>,
    pub value: RegexpValue,
}

impl Regexp {
    pub fn new() -> (r: Self)
        ensures
            r.field is None,
            r.value.value@ == Seq::<char>::empty(),
            r.value.boost is None,
            r.value.case_insensitive is None,
            r.value.flags is None,
            r.value.max_determinized_states is None,
            r.value.rewrite is None,
    {
        Regexp {
            field: None,
            value: RegexpValue {
                value: String::new(),
                boost: None,
                case_insensitive: None,
                flags: None,
                max_determinized_states: None,
                rewrite: None,
            },
        }
    }

    pub fn field(self, field: String) -> (r: Self)
        ensures
            r == (Regexp { field: Some(field), ..self }),
    {
        Regexp { field: Some(field), ..self }
    }

    pub fn value(self, value: String) -> (r: Self)
        ensures
            r == (Regexp { value: RegexpValue { value, ..self.value }, ..self }),
    {
        Regexp { value: RegexpValue { value, ..self.value }, ..self }
    }

    pub fn boost(self, boost: Decimal) -> (r: Self)
        ensures
            r == (Regexp { value: RegexpValue { boost: Some(boost), ..self.value }, ..self }),
    {
        Regexp { value: RegexpValue { boost: Some(boost), ..self.value }, ..self }
    }

    pub fn case_insensitive(self, case_insensitive: bool) -> (r: Self)
        ensures
            r == (Regexp {
                value: RegexpValue { case_insensitive: Some(case_insensitive), ..self.value },
                ..self
            }),
    {
        Regexp {
            value: RegexpValue { case_insensitive: Some(case_insensitive), ..self.value },
            ..self
        }
    }

    pub fn max_determinized_states(self, max_determinized_states: u64) -> (r: Self)
        ensures
            r == (Regexp {
                value: RegexpValue {
                    max_determinized_states: Some(max_determinized_states),
                    ..self.value
                },
                ..self
            }),
    {
        Regexp {
            value: RegexpValue {
                max_determinized_states: Some(max_determinized_states),
                ..self.value
            },
            ..self
        }
    }

    pub fn rewrite(self, rewrite: Rewrite) -> (r: Self)
        ensures
            r == (Regexp { value: RegexpValue { rewrite: Some(rewrite), ..self.value }, ..self }),
    {
        Regexp { value: RegexpValue { rewrite: Some(rewrite), ..self.value }, ..self }
    }

    pub fn flags(self, flags: RegexpFlag) -> (r: Self)
        ensures
            r == (Regexp { value: RegexpValue { flags: Some(flags), ..self.value }, ..self }),
    {
        Regexp { value: RegexpValue { flags: Some(flags), ..self.value }, ..self }
    }

    pub open spec fn slots(self) -> Seq<(Seq<char>, Option<JVal>)> {
        Seq::empty().push(("value"@, Some(JVal::Str(self.value.value@)))).push(
            ("boost"@, opt_dec(self.value.boost)),
        ).push(("case_insensitive"@, opt_bool(self.value.case_insensitive))).push(
            ("flags"@, opt_regexp_flag(self.value.flags)),
        ).push(("max_determinized_states"@, opt_u64(self.value.max_determinized_states))).push(
            ("rewrite"@, opt_rewrite(self.value.rewrite)),
        )
    }

    pub open spec fn jval(self) -> JVal {
        JVal::Obj(
            Seq::empty().push((field_key(self.field), JVal::Obj(present(self.slots())))),
        )
    }

    pub fn to_json(self) -> (r: Json)
        ensures
            jv(r) == self.jval(),
    {
        let mut es: Vec<(String, Json)> = Vec::new();
        push_entry(&mut es, "value", Json::Str(self.value.value));
        if let Some(b) = self.value.boost {
            push_entry(&mut es, "boost", Json::Num(b));
        }
        if let Some(c) = self.value.case_insensitive {
            push_entry(&mut es, "case_insensitive", Json::Bool(c));
        }
        if let Some(f) = self.value.flags {
            push_entry(&mut es, "flags", f.to_json());
        }
        if let Some(m) = self.value.max_determinized_states {
            push_entry(&mut es, "max_determinized_states", Json::uint(m));
        }
        if let Some(w) = self.value.rewrite {
            push_entry(&mut es, "rewrite", w.to_json());
        }
        wrap_key(key_or_empty(self.field), Json::Obj(es))
    }
}

} // verus!
