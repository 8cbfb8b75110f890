use crate::json::{
    field_key, json_or_null, jv, key_or_empty, opt_bool, opt_dec, opt_str, opt_u64, present,
    push_entry, take_or_null, wrap_key, Decimal, JVal, Json,
};
use crate::misc::fuzziness::{opt_fuzziness, Fuzziness};
use crate::misc::operator::{opt_operator, Operator};
use crate::misc::zero_terms_query::{opt_zero_terms_query, ZeroTermsQuery};
use vstd::prelude::*;

verus! {

broadcast use crate::json::lemma_present_push;

/// The attribute object of a match query.  `query` is always emitted, as
/// `null` when never set; every other attribute is omitted when unset.
#[derive(Debug)]
pub struct MatchValues {
    pub query: Option<Json>,
    pub fuzziness: Option<Fuzziness>,
    pub fuzzy_transpositions: Option<bool>,
    pub operator: Option<Operator>,
    pub minimum_should_match: Option<String>,
    pub analyzer: Option<String>,
    pub zero_terms_query: Option<ZeroTermsQuery>,
    pub lenient: Option<bool>,
    pub prefix_length: Option<u64>,
    pub max_expansions: Option<u64>,
    pub boost: Option<Decimal>,
}

/// A full-text match query, keyed by its field name.
#[derive(Debug)]
pub struct Match {
    pub field: Option<String>,
    pub value: MatchValues,
}

impl MatchValues {
    /// The attribute object with nothing set.
    pub open spec fn unset() -> MatchValues {
        MatchValues {
            query: None,
            fuzziness: None,
            fuzzy_transpositions: None,
            operator: None,
            minimum_should_match: None,
            analyzer: None,
            zero_terms_query: None,
            lenient: None,
            prefix_length: None,
            max_expansions: None,
            boost: None,
        }
    }
}

impl Match {
    pub fn new() -> (r: Self)
        ensures
            r.field is None,
            r.value == MatchValues::unset(),
    {
        Match {
            field: None,
            value: MatchValues {
                query: None,
                fuzziness: None,
                fuzzy_transpositions: None,
                operator: None,
                minimum_should_match: None,
                analyzer: None,
                zero_terms_query: None,
                lenient: None,
                prefix_length: None,
                max_expansions: None,
                boost: None,
            },
        }
    }

    pub fn field(self, field: String) -> (r: Self)
        ensures
            r == (Match { field: Some(field), ..self }),
    {
        Match { field: Some(field), ..self }
    }

    pub fn value(self, val: Json) -> (r: Self)
        ensures
            r == (Match { value: MatchValues { query: Some(val), ..self.value }, ..self }),
    {
        Match { value: MatchValues { query: Some(val), ..self.value }, ..self }
    }

    /// The same setter under the wire name of the attribute.
    pub fn query(self, value: Json) -> (r: Self)
        ensures
            r == (Match { value: MatchValues { query: Some(value), ..self.value }, ..self }),
    {
        self.value(value)
    }

    pub fn operator(self, operator: Operator) -> (r: Self)
        ensures
            r == (Match {
                value: MatchValues { operator: Some(operator), ..self.value },
                ..self
            }),
    {
        Match { value: MatchValues { operator: Some(operator), ..self.value }, ..self }
    }

    pub fn analyzer(self, analyzer: String) -> (r: Self)
        ensures
            r == (Match {
                value: MatchValues { analyzer: Some(analyzer), ..self.value },
                ..self
            }),
    {
        Match { value: MatchValues { analyzer: Some(analyzer), ..self.value }, ..self }
    }

    pub fn zero_terms_query(self, zero_terms_query: ZeroTermsQuery) -> (r: Self)
        ensures
            r == (Match {
                value: MatchValues { zero_terms_query: Some(zero_terms_query), ..self.value },
                ..self
            }),
    {
        Match {
            value: MatchValues { zero_terms_query: Some(zero_terms_query), ..self.value },
            ..self
        }
    }

    pub fn lenient(self, lenient: bool) -> (r: Self)
        ensures
            r == (Match { value: MatchValues { lenient: Some(lenient), ..self.value }, ..self }),
    {
        Match { value: MatchValues { lenient: Some(lenient), ..self.value }, ..self }
    }

    pub fn prefix_length(self, prefix_length: u64) -> (r: Self)
        ensures
            r == (Match {
                value: MatchValues { prefix_length: Some(prefix_length), ..self.value },
                ..self
            }),
    {
        Match { value: MatchValues { prefix_length: Some(prefix_length), ..self.value }, ..self }
    }

    pub fn max_expansions(self, max_expansions: u64) -> (r: Self)
        ensures
            r == (Match {
                value: MatchValues { max_expansions: Some(max_expansions), ..self.value },
                ..self
            }),
    {
        Match {
            value: MatchValues { max_expansions: Some(max_expansions), ..self.value },
            ..self
        }
    }

    pub fn boost(self, boost: Decimal) -> (r: Self)
        ensures
            r == (Match { value: MatchValues { boost: Some(boost), ..self.value }, ..self }),
    {
        Match { value: MatchValues { boost: Some(boost), ..self.value }, ..self }
    }

    pub fn fuzziness(self, fuzziness: Fuzziness) -> (r: Self)
        ensures
            r == (Match {
                value: MatchValues { fuzziness: Some(fuzziness), ..self.value },
                ..self
            }),
    {
        Match { value: MatchValues { fuzziness: Some(fuzziness), ..self.value }, ..self }
    }

    pub fn fuzzy_transpositions(self, fuzzy_transpositions: bool) -> (r: Self)
        ensures
            r == (Match {
                value: MatchValues {
                    fuzzy_transpositions: Some(fuzzy_transpositions),
                    ..self.value
                },
                ..self
            }),
    {
        Match {
            value: MatchValues { fuzzy_transpositions: Some(fuzzy_transpositions), ..self.value },
            ..self
        }
    }

    pub fn minimum_should_match(self, minimum_should_match: String) -> (r: Self)
        ensures
            r == (Match {
                value: MatchValues {
                    minimum_should_match: Some(minimum_should_match),
                    ..self.value
                },
                ..self
            }),
    {
        Match {
            value: MatchValues { minimum_should_match: Some(minimum_should_match), ..self.value },
            ..self
        }
    }

    pub open spec fn slots(self) -> Seq<(Seq<char>, Option<JVal>)> {
        Seq::empty().push(("query"@, Some(json_or_null(self.value.query)))).push(
            ("fuzziness"@, opt_fuzziness(self.value.fuzziness)),
        ).push(("fuzzy_transpositions"@, opt_bool(self.value.fuzzy_transpositions))).push(
            ("operator"@, opt_operator(self.value.operator)),
        ).push(("minimum_should_match"@, opt_str(self.value.minimum_should_match))).push(
            ("analyzer"@, opt_str(self.value.analyzer)),
        ).push(("zero_terms_query"@, opt_zero_terms_query(self.value.zero_terms_query))).push(
            ("lenient"@, opt_bool(self.value.lenient)),
        ).push(("prefix_length"@, opt_u64(self.value.prefix_length))).push(
            ("max_expansions"@, opt_u64(self.value.max_expansions)),
        ).push(("boost"@, opt_dec(self.value.boost)))
    }

    pub open spec fn jval(self) -> JVal {
        JVal::Obj(
            Seq::empty().push((field_key(self.field), JVal::Obj(present(self.slots())))),
        )
    }

    pub fn to_json(self) -> (r: Json)
        ensures
            jv(r) == self.jval(),
    {
        let mut es: Vec<(String, Json)> = Vec::new();
        push_entry(&mut es, "query", take_or_null(self.value.query));
        if let Some(f) = self.value.fuzziness {
            push_entry(&mut es, "fuzziness", f.to_json());
        }
        if let Some(t) = self.value.fuzzy_transpositions {
            push_entry(&mut es, "fuzzy_transpositions", Json::Bool(t));
        }
        if let Some(o) = self.value.operator {
            push_entry(&mut es, "operator", o.to_json());
        }
        if let Some(s) = self.value.minimum_should_match {
            push_entry(&mut es, "minimum_should_match", Json::Str(s));
        }
        if let Some(s) = self.value.analyzer {
            push_entry(&mut es, "analyzer", Json::Str(s));
        }
        if let Some(z) = self.value.zero_terms_query {
            push_entry(&mut es, "zero_terms_query", z.to_json());
        }
        if let Some(l) = self.value.lenient {
            push_entry(&mut es, "lenient", Json::Bool(l));
        }
        if let Some(p) = self.value.prefix_length {
            push_entry(&mut es, "prefix_length", Json::uint(p));
        }
        if let Some(m) = self.value.max_expansions {
            push_entry(&mut es, "max_expansions", Json::uint(m));
        }
        if let Some(b) = self.value.boost {
            push_entry(&mut es, "boost", Json::Num(b));
        }
        wrap_key(key_or_empty(self.field), Json::Obj(es))
    }
}

} // verus!
