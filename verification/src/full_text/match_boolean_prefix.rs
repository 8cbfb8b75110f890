use crate::json::{
    field_key, jv, key_or_empty, opt_bool, opt_str, opt_u64, present, push_entry, wrap_key, JVal,
    Json,
};
use crate::misc::fuzziness::{opt_fuzziness, Fuzziness};
use crate::misc::operator::{opt_operator, Operator};
use crate::misc::rewrite::{opt_rewrite, Rewrite};
use vstd::prelude::*;

verus! {

broadcast use crate::json::lemma_present_push;

/// The attribute object of a match-bool-prefix query; `query` is required
/// and always emitted.
#[derive(Debug)]
pub struct MatchBoolPrefixValue {
    pub query: String,
    pub analyzer: Option<String>,
    pub fuzzy_rewrite: Option<Rewrite>,
    pub fuzziness: Option<Fuzziness>,
    pub fuzzy_transpositions: Option<bool>,
    pub max_expansions: Option<u64>,
    pub minimum_should_match: Option<String>,
    pub operator: Option<Operator>,
    pub prefix_length: Option<u64>,
}

/// Analyses its input into a boolean query whose last term is a prefix
/// match, keyed by the field name.
#[derive(Debug)]
pub struct MatchBoolPrefix {
    pub field: Option<String>,
    pub value: MatchBoolPrefixValue,
}

impl MatchBoolPrefix {
    pub fn new() -> (r: Self)
        ensures
            r.field is None,
            r.value.query@ == Seq::<char>::empty(),
            r.value.analyzer is None,
            r.value.fuzzy_rewrite is None,
            r.value.fuzziness is None,
            r.value.fuzzy_transpositions is None,
            r.value.max_expansions is None,
            r.value.minimum_should_match is None,
            r.value.operator is None,
            r.value.prefix_length is None,
    {
        MatchBoolPrefix {
            field: None,
            value: MatchBoolPrefixValue {
                query: String::new(),
                analyzer: None,
                fuzzy_rewrite: None,
                fuzziness: None,
                fuzzy_transpositions: None,
                max_expansions: None,
                minimum_should_match: None,
                operator: None,
                prefix_length: None,
            },
        }
    }

    pub fn field(self, field: String) -> (r: Self)
        ensures
            r == (MatchBoolPrefix { field: Some(field), ..self }),
    {
        MatchBoolPrefix { field: Some(field), ..self }
    }

    pub fn query(self, value: String) -> (r: Self)
        ensures
            r == (MatchBoolPrefix {
                value: MatchBoolPrefixValue { query: value, ..self.value },
                ..self
            }),
    {
        MatchBoolPrefix { value: MatchBoolPrefixValue { query: value, ..self.value }, ..self }
    }

    pub fn fuzzy_rewrite(self, fuzzy_rewrite: Rewrite) -> (r: Self)
        ensures
            r == (MatchBoolPrefix {
                value: MatchBoolPrefixValue { fuzzy_rewrite: Some(fuzzy_rewrite), ..self.value },
                ..self
            }),
    {
        MatchBoolPrefix {
            value: MatchBoolPrefixValue { fuzzy_rewrite: Some(fuzzy_rewrite), ..self.value },
            ..self
        }
    }

    pub fn operator(self, operator: Operator) -> (r: Self)
        ensures
            r == (MatchBoolPrefix {
                value: MatchBoolPrefixValue { operator: Some(operator), ..self.value },
                ..self
            }),
    {
        MatchBoolPrefix {
            value: MatchBoolPrefixValue { operator: Some(operator), ..self.value },
            ..self
        }
    }

    pub fn analyzer(self, analyzer: String) -> (r: Self)
        ensures
            r == (MatchBoolPrefix {
                value: MatchBoolPrefixValue { analyzer: Some(analyzer), ..self.value },
                ..self
            }),
    {
        MatchBoolPrefix {
            value: MatchBoolPrefixValue { analyzer: Some(analyzer), ..self.value },
            ..self
        }
    }

    pub fn prefix_length(self, prefix_length: u64) -> (r: Self)
        ensures
            r == (MatchBoolPrefix {
                value: MatchBoolPrefixValue { prefix_length: Some(prefix_length), ..self.value },
                ..self
            }),
    {
        MatchBoolPrefix {
            value: MatchBoolPrefixValue { prefix_length: Some(prefix_length), ..self.value },
            ..self
        }
    }

    pub fn max_expansions(self, max_expansions: u64) -> (r: Self)
        ensures
            r == (MatchBoolPrefix {
                value: MatchBoolPrefixValue { max_expansions: Some(max_expansions), ..self.value },
                ..self
            }),
    {
        MatchBoolPrefix {
            value: MatchBoolPrefixValue { max_expansions: Some(max_expansions), ..self.value },
            ..self
        }
    }

    pub fn fuzziness(self, fuzziness: Fuzziness) -> (r: Self)
        ensures
            r == (MatchBoolPrefix {
                value: MatchBoolPrefixValue { fuzziness: Some(fuzziness), ..self.value },
                ..self
            }),
    {
        MatchBoolPrefix {
            value: MatchBoolPrefixValue { fuzziness: Some(fuzziness), ..self.value },
            ..self
        }
    }

    pub fn fuzzy_transpositions(self, fuzzy_transpositions: bool) -> (r: Self)
        ensures
            r == (MatchBoolPrefix {
                value: MatchBoolPrefixValue {
                    fuzzy_transpositions: Some(fuzzy_transpositions),
                    ..self.value
                },
                ..self
            }),
    {
        MatchBoolPrefix {
            value: MatchBoolPrefixValue {
                fuzzy_transpositions: Some(fuzzy_transpositions),
                ..self.value
            },
            ..self
        }
    }

    pub fn minimum_should_match(self, minimum_should_match: String) -> (r: Self)
        ensures
            r == (MatchBoolPrefix {
                value: MatchBoolPrefixValue {
                    minimum_should_match: Some(minimum_should_match),
                    ..self.value
                },
                ..self
            }),
    {
        MatchBoolPrefix {
            value: MatchBoolPrefixValue {
                minimum_should_match: Some(minimum_should_match),
                ..self.value
            },
            ..self
        }
    }

    pub open spec fn slots(self) -> Seq<(Seq<char>, Option<JVal>)> {
        Seq::empty().push(("query"@, Some(JVal::Str(self.value.query@)))).push(
            ("analyzer"@, opt_str(self.value.analyzer)),
        ).push(("fuzzy_rewrite"@, opt_rewrite(self.value.fuzzy_rewrite))).push(
            ("fuzziness"@, opt_fuzziness(self.value.fuzziness)),
        ).push(("fuzzy_transpositions"@, opt_bool(self.value.fuzzy_transpositions))).push(
            ("max_expansions"@, opt_u64(self.value.max_expansions)),
        ).push(("minimum_should_match"@, opt_str(self.value.minimum_should_match))).push(
            ("operator"@, opt_operator(self.value.operator)),
        ).push(("prefix_length"@, opt_u64(self.value.prefix_length)))
    }

    pub open spec fn jval(self) -> JVal {
        JVal::Obj(
            Seq::empty().push((field_key(self.field), JVal::Obj(present(self.slots())))),
        )
    }

    pub fn to_json(self) -> (r: Json)
        ensures
            jv(r) == self.jval(),
    {
        let mut es: Vec<(String, Json)> = Vec::new();
        push_entry(&mut es, "query", Json::Str(self.value.query));
        if let Some(s) = self.value.analyzer {
            push_entry(&mut es, "analyzer", Json::Str(s));
        }
        if let Some(w) = self.value.fuzzy_rewrite {
            push_entry(&mut es, "fuzzy_rewrite", w.to_json());
        }
        if let Some(f) = self.value.fuzziness {
            push_entry(&mut es, "fuzziness", f.to_json());
        }
        if let Some(t) = self.value.fuzzy_transpositions {
            push_entry(&mut es, "fuzzy_transpositions", Json::Bool(t));
        }
        if let Some(m) = self.value.max_expansions {
            push_entry(&mut es, "max_expansions", Json::uint(m));
        }
        if let Some(s) = self.value.minimum_should_match {
            push_entry(&mut es, "minimum_should_match", Json::Str(s));
        }
        if let Some(o) = self.value.operator {
            push_entry(&mut es, "operator", o.to_json());
        }
        if let Some(p) = self.value.prefix_length {
            push_entry(&mut es, "prefix_length", Json::uint(p));
        }
        wrap_key(key_or_empty(self.field), Json::Obj(es))
    }
}

} // verus!
