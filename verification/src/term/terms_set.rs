use crate::json::{
    field_key, jv, key_or_empty, opt_dec, opt_str, present, push_entry, str_list_jval,
    strings_to_json, wrap_key, Decimal, JVal, Json,
};
use crate::misc::script::Script;
use vstd::prelude::*;

verus! {

broadcast use crate::json::lemma_present_push;

/// The attribute object of a terms-set query.  The two
/// minimum-should-match forms are mutually exclusive: setting one clears
/// the other.
#[derive(Debug)]
pub struct TermsSetValue {
    pub terms: Vec<String>,
    pub minimum_should_match_field: Option<String>,
    pub minimum_should_match_script: Option<Script>,
    pub boost: Option<Decimal>,
}

/// Matches documents holding at least a given number of the listed terms,
/// keyed by the field name.
#[derive(Debug)]
pub struct TermsSet {
    pub field: Option<String>,
    pub value: TermsSetValue,
}

pub open spec fn opt_script(o: Option<Script>) -> Option<JVal> {
    match o {
        Some(s) => Some(s.jval()),
        None => None,
    }
}

impl TermsSet {
    pub fn new() -> (r: Self)
        ensures
            r.field is None,
            r.value.terms@ == Seq::<String>::empty(),
            r.value.minimum_should_match_field is None,
            r.value.minimum_should_match_script is None,
            r.value.boost is None,
    {
        TermsSet {
            field: None,
            value: TermsSetValue {
                terms: Vec::new(),
                minimum_should_match_field: None,
                minimum_should_match_script: None,
                boost: None,
            },
        }
    }

    pub fn field(self, field: String) -> (r: Self)
        ensures
            r == (TermsSet { field: Some(field), ..self }),
    {
        TermsSet { field: Some(field), ..self }
    }

    pub fn minimum_should_match_field(self, minimum_should_match_field: String) -> (r: Self)
        ensures
            r == (TermsSet {
                value: TermsSetValue {
                    minimum_should_match_field: Some(minimum_should_match_field),
                    minimum_should_match_script: None,
                    ..self.value
                },
                ..self
            }),
    {
        TermsSet {
            value: TermsSetValue {
                minimum_should_match_field: Some(minimum_should_match_field),
                minimum_should_match_script: None,
                ..self.value
            },
            ..self
        }
    }

    pub fn minimum_should_match_script(self, minimum_should_match_script: Script) -> (r: Self)
        ensures
            r == (TermsSet {
                value: TermsSetValue {
                    minimum_should_match_script: Some(minimum_should_match_script),
                    minimum_should_match_field: None,
                    ..self.value
                },
                ..self
            }),
    {
        TermsSet {
            value: TermsSetValue {
                minimum_should_match_script: Some(minimum_should_match_script),
                minimum_should_match_field: None,
                ..self.value
            },
            ..self
        }
    }

    pub fn terms(self, terms: Vec<String>) -> (r: Self)
        ensures
            r == (TermsSet { value: TermsSetValue { terms, ..self.value }, ..self }),
    {
        TermsSet { value: TermsSetValue { terms, ..self.value }, ..self }
    }

    pub fn boost(self, boost: Decimal) -> (r: Self)
        ensures
            r == (TermsSet { value: TermsSetValue { boost: Some(boost), ..self.value }, ..self }),
    {
        TermsSet { value: TermsSetValue { boost: Some(boost), ..self.value }, ..self }
    }

    pub open spec fn slots(self) -> Seq<(Seq<char>, Option<JVal>)> {
        Seq::empty().push(("terms"@, Some(JVal::Arr(str_list_jval(self.value.terms@))))).push(
            ("minimum_should_match_field"@, opt_str(self.value.minimum_should_match_field)),
        ).push(
            ("minimum_should_match_script"@, opt_script(self.value.minimum_should_match_script)),
        ).push(("boost"@, opt_dec(self.value.boost)))
    }

    pub open spec fn jval(self) -> JVal {
        JVal::Obj(
            Seq::empty().push((field_key(self.field), JVal::Obj(present(self.slots())))),
        )
    }

    pub fn to_json(self) -> (r: Json)
        ensures
            jv(r) == self.jval(),
    {
        let mut es: Vec<(String, Json)> = Vec::new();
        push_entry(&mut es, "terms", strings_to_json(self.value.terms));
        if let Some(s) = self.value.minimum_should_match_field {
            push_entry(&mut es, "minimum_should_match_field", Json::Str(s));
        }
        if let Some(s) = self.value.minimum_should_match_script {
            push_entry(&mut es, "minimum_should_match_script", s.to_json());
        }
        if let Some(b) = self.value.boost {
            push_entry(&mut es, "boost", Json::Num(b));
        }
        wrap_key(key_or_empty(self.field), Json::Obj(es))
    }
}

} // verus!
