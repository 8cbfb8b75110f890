use crate::json::{
    field_key, jv, key_or_empty, opt_bool, opt_dec, opt_u64, present, push_entry, wrap_key,
    Decimal, JVal, Json,
};
use crate::misc::fuzziness::{opt_fuzziness, Fuzziness};
use crate::misc::rewrite::{opt_rewrite, Rewrite};
use vstd::prelude::*;

verus! {

broadcast use crate::json::lemma_present_push;

/// The attribute object of a fuzzy query.
#[derive(Debug)]
pub struct FuzzyValue {
    pub value: String,
    pub boost: Option<Decimal>,
    pub fuzziness: Option<Fuzziness>,
    pub max_expansions: Option<u64>,
    pub prefix_length: Option<u64>,
    pub rewrite: Option<Rewrite>,
    pub transpositions: Option<bool>,
}

/// Matches terms within an edit distance of the given value, keyed by the
/// field name.
#[derive(Debug)]
pub struct Fuzzy {
    pub field: Option<String>,
    pub value: FuzzyValue,
}

impl Fuzzy {
    pub fn new() -> (r: Self)
        ensures
            r.field is None,
            r.value.value@ == Seq::<char>::empty(),
            r.value.boost is None,
            r.value.fuzziness is None,
            r.value.max_expansions is None,
            r.value.prefix_length is None,
            r.value.rewrite is None,
            r.value.transpositions is None,
    {
        Fuzzy {
            field: None,
            value: FuzzyValue {
                value: String::new(),
                boost: None,
                fuzziness: None,
                max_expansions: None,
                prefix_length: None,
                rewrite: None,
                transpositions: None,
            },
        }
    }

    pub fn field(self, field: String) -> (r: Self)
        ensures
            r == (Fuzzy { field: Some(field), ..self }),
    {
        Fuzzy { field: Some(field), ..self }
    }

    pub fn value(self, value: String) -> (r: Self)
        ensures
            r == (Fuzzy { value: FuzzyValue { value, ..self.value }, ..self }),
    {
        Fuzzy { value: FuzzyValue { value, ..self.value }, ..self }
    }

    pub fn boost(self, boost: Decimal) -> (r: Self)
        ensures
            r == (Fuzzy { value: FuzzyValue { boost: Some(boost), ..self.value }, ..self }),
    {
        Fuzzy { value: FuzzyValue { boost: Some(boost), ..self.value }, ..self }
    }

    pub fn fuzziness(self, fuzziness: Fuzziness) -> (r: Self)
        ensures
            r == (Fuzzy {
                value: FuzzyValue { fuzziness: Some(fuzziness), ..self.value },
                ..self
            }),
    {
        Fuzzy { value: FuzzyValue { fuzziness: Some(fuzziness), ..self.value }, ..self }
    }

    pub fn max_expansions(self, max_expansions: u64) -> (r: Self)
        ensures
            r == (Fuzzy {
                value: FuzzyValue { max_expansions: Some(max_expansions), ..self.value },
                ..self
            }),
    {
        Fuzzy { value: FuzzyValue { max_expansions: Some(max_expansions), ..self.value }, ..self }
    }

    pub fn prefix_length(self, prefix_length: u64) -> (r: Self)
        ensures
            r == (Fuzzy {
                value: FuzzyValue { prefix_length: Some(prefix_length), ..self.value },
                ..self
            }),
    {
        Fuzzy { value: FuzzyValue { prefix_length: Some(prefix_length), ..self.value }, ..self }
    }

    pub fn rewrite(self, rewrite: Rewrite) -> (r: Self)
        ensures
            r == (Fuzzy { value: FuzzyValue { rewrite: Some(rewrite), ..self.value }, ..self }),
    {
        Fuzzy { value: FuzzyValue { rewrite: Some(rewrite), ..self.value }, ..self }
    }

    pub fn transpositions(self, transpositions: bool) -> (r: Self)
        ensures
            r == (Fuzzy {
                value: FuzzyValue { transpositions: Some(transpositions), ..self.value },
                ..self
            }),
    {
        Fuzzy { value: FuzzyValue { transpositions: Some(transpositions), ..self.value }, ..self }
    }

    pub open spec fn slots(self) -> Seq<(Seq<char>, Option<JVal>)> {
        Seq::empty().push(("value"@, Some(JVal::Str(self.value.value@)))).push(
            ("boost"@, opt_dec(self.value.boost)),
        ).push(("fuzziness"@, opt_fuzziness(self.value.fuzziness))).push(
            ("max_expansions"@, opt_u64(self.value.max_expansions)),
        ).push(("prefix_length"@, opt_u64(self.value.prefix_length))).push(
            ("rewrite"@, opt_rewrite(self.value.rewrite)),
        ).push(("transpositions"@, opt_bool(self.value.transpositions)))
    }

    pub open spec fn jval(self) -> JVal {
        JVal::Obj(
            Seq::empty().push((field_key(self.field), JVal::Obj(present(self.slots())))),
        )
    }

    pub fn to_json(self) -> (r: Json)
        ensures
            jv(r) == self.jval(),
    {
        let mut es: Vec<(String, Json)> = Vec::new();
        push_entry(&mut es, "value", Json::Str(self.value.value));
        if let Some(b) = self.value.boost {
            push_entry(&mut es, "boost", Json::Num(b));
        }
        if let Some(f) = self.value.fuzziness {
            push_entry(&mut es, "fuzziness", f.to_json());
        }
        if let Some(m) = self.value.max_expansions {
            push_entry(&mut es, "max_expansions", Json::uint(m));
        }
        if let Some(p) = self.value.prefix_length {
            push_entry(&mut es, "prefix_length", Json::uint(p));
        }
        if let Some(w) = self.value.rewrite {
            push_entry(&mut es, "rewrite", w.to_json());
        }
        if let Some(t) = self.value.transpositions {
            push_entry(&mut es, "transpositions", Json::Bool(t));
        }
        wrap_key(key_or_empty(self.field), Json::Obj(es))
    }
}

} // verus!
