use crate::json::{
    json_or_null, jv, opt_bool, opt_dec, opt_str, opt_u64, present, push_entry, str_list_jval,
    strings_to_json, take_or_null, Decimal, JVal, Json,
};
use crate::misc::fuzziness::{opt_fuzziness, Fuzziness};
use crate::misc::operator::{opt_operator, Operator};
use crate::misc::query_type::{opt_type, Type};
use crate::misc::zero_terms_query::{opt_zero_terms_query, ZeroTermsQuery};
use vstd::prelude::*;

verus! {

broadcast use crate::json::lemma_present_push;

/// Searches several fields at once.  `query` and `fields` are always
/// emitted; the matching strategy goes out under the wire name `type`.
#[derive(Debug)]
pub struct MultiMatch {
    pub query: Option<Json>,
    pub fields: Vec<String>,
    pub query_type: Option<Type>,
    pub operator: Option<Operator>,
    pub minimum_should_match: Option<String>,
    pub tie_breaker: Option<Decimal>,
    pub analyzer: Option<String>,
    pub boost: Option<Decimal>,
    pub fuzziness: Option<Fuzziness>,
    pub fuzzy_transpositions: Option<bool>,
    pub lenient: Option<bool>,
    pub prefix_length: Option<u64>,
    pub max_expansions: Option<u64>,
    pub auto_generate_synonyms_phrase_query: Option<bool>,
    pub zero_terms_query: Option<ZeroTermsQuery>,
}

impl MultiMatch {
    pub fn new() -> (r: Self)
        ensures
            r.query is None,
            r.fields@ == Seq::<String>::empty(),
            r.query_type is None,
            r.operator is None,
            r.minimum_should_match is None,
            r.tie_breaker is None,
            r.analyzer is None,
            r.boost is None,
            r.fuzziness is None,
            r.fuzzy_transpositions is None,
            r.lenient is None,
            r.prefix_length is None,
            r.max_expansions is None,
            r.auto_generate_synonyms_phrase_query is None,
            r.zero_terms_query is None,
    {
        MultiMatch {
            query: None,
            fields: Vec::new(),
            query_type: None,
            operator: None,
            minimum_should_match: None,
            tie_breaker: None,
            analyzer: None,
            boost: None,
            fuzziness: None,
            fuzzy_transpositions: None,
            lenient: None,
            prefix_length: None,
            max_expansions: None,
            auto_generate_synonyms_phrase_query: None,
            zero_terms_query: None,
        }
    }

    pub fn fields(self, fields: Vec<String>) -> (r: Self)
        ensures
            r == (MultiMatch { fields, ..self }),
    {
        MultiMatch { fields, ..self }
    }

    /// Appends one more field to the searched list.
    pub fn field(self, field: String) -> (r: Self)
        ensures
            r.fields@ == self.fields@.push(field),
            r == (MultiMatch { fields: r.fields, ..self }),
    {
        let mut fields = self.fields;
        fields.push(field);
        MultiMatch { fields, ..self }
    }

    pub fn value(self, value: Json) -> (r: Self)
        ensures
            r == (MultiMatch { query: Some(value), ..self }),
    {
        MultiMatch { query: Some(value), ..self }
    }

    /// The same setter under the wire name of the attribute.
    pub fn query(self, query: Json) -> (r: Self)
        ensures
            r == (MultiMatch { query: Some(query), ..self }),
    {
        self.value(query)
    }

    pub fn query_type(self, typ: Type) -> (r: Self)
        ensures
            r == (MultiMatch { query_type: Some(typ), ..self }),
    {
        MultiMatch { query_type: Some(typ), ..self }
    }

    pub fn operator(self, operator: Operator) -> (r: Self)
        ensures
            r == (MultiMatch { operator: Some(operator), ..self }),
    {
        MultiMatch { operator: Some(operator), ..self }
    }

    pub fn minimum_should_match(self, minimum_should_match: String) -> (r: Self)
        ensures
            r == (MultiMatch { minimum_should_match: Some(minimum_should_match), ..self }),
    {
        MultiMatch { minimum_should_match: Some(minimum_should_match), ..self }
    }

    pub fn tie_breaker(self, tie_breaker: Decimal) -> (r: Self)
        ensures
            r == (MultiMatch { tie_breaker: Some(tie_breaker), ..self }),
    {
        MultiMatch { tie_breaker: Some(tie_breaker), ..self }
    }

    pub fn analyzer(self, analyzer: String) -> (r: Self)
        ensures
            r == (MultiMatch { analyzer: Some(analyzer), ..self }),
    {
        MultiMatch { analyzer: Some(analyzer), ..self }
    }

    pub fn boost(self, boost: Decimal) -> (r: Self)
        ensures
            r == (MultiMatch { boost: Some(boost), ..self }),
    {
        MultiMatch { boost: Some(boost), ..self }
    }

    pub fn fuzziness(self, fuzziness: Fuzziness) -> (r: Self)
        ensures
            r == (MultiMatch { fuzziness: Some(fuzziness), ..self }),
    {
        MultiMatch { fuzziness: Some(fuzziness), ..self }
    }

    pub fn fuzzy_transpositions(self, fuzzy_transpositions: bool) -> (r: Self)
        ensures
            r == (MultiMatch { fuzzy_transpositions: Some(fuzzy_transpositions), ..self }),
    {
        MultiMatch { fuzzy_transpositions: Some(fuzzy_transpositions), ..self }
    }

    pub fn lenient(self, lenient: bool) -> (r: Self)
        ensures
            r == (MultiMatch { lenient: Some(lenient), ..self }),
    {
        MultiMatch { lenient: Some(lenient), ..self }
    }

    pub fn prefix_length(self, prefix_length: u64) -> (r: Self)
        ensures
            r == (MultiMatch { prefix_length: Some(prefix_length), ..self }),
    {
        MultiMatch { prefix_length: Some(prefix_length), ..self }
    }

    pub fn max_expansions(self, max_expansions: u64) -> (r: Self)
        ensures
            r == (MultiMatch { max_expansions: Some(max_expansions), ..self }),
    {
        MultiMatch { max_expansions: Some(max_expansions), ..self }
    }

    pub fn auto_generate_synonyms_phrase_query(
        self,
        auto_generate_synonyms_phrase_query: bool,
    ) -> (r: Self)
        ensures
            r == (MultiMatch {
                auto_generate_synonyms_phrase_query: Some(auto_generate_synonyms_phrase_query),
                ..self
            }),
    {
        MultiMatch {
            auto_generate_synonyms_phrase_query: Some(auto_generate_synonyms_phrase_query),
            ..self
        }
    }

    pub fn zero_terms_query(self, zero_terms_query: ZeroTermsQuery) -> (r: Self)
        ensures
            r == (MultiMatch { zero_terms_query: Some(zero_terms_query), ..self }),
    {
        MultiMatch { zero_terms_query: Some(zero_terms_query), ..self }
    }

    pub open spec fn slots(self) -> Seq<(Seq<char>, Option<JVal>)> {
        Seq::empty().push(("query"@, Some(json_or_null(self.query)))).push(
            ("fields"@, Some(JVal::Arr(str_list_jval(self.fields@)))),
        ).push(("type"@, opt_type(self.query_type))).push(
            ("operator"@, opt_operator(self.operator)),
        ).push(("minimum_should_match"@, opt_str(self.minimum_should_match))).push(
            ("tie_breaker"@, opt_dec(self.tie_breaker)),
        ).push(("analyzer"@, opt_str(self.analyzer))).push(("boost"@, opt_dec(self.boost))).push(
            ("fuzziness"@, opt_fuzziness(self.fuzziness)),
        ).push(("fuzzy_transpositions"@, opt_bool(self.fuzzy_transpositions))).push(
            ("lenient"@, opt_bool(self.lenient)),
        ).push(("prefix_length"@, opt_u64(self.prefix_length))).push(
            ("max_expansions"@, opt_u64(self.max_expansions)),
        ).push(
            (
                "auto_generate_synonyms_phrase_query"@,
                opt_bool(self.auto_generate_synonyms_phrase_query),
            ),
        ).push(("zero_terms_query"@, opt_zero_terms_query(self.zero_terms_query)))
    }

    pub open spec fn jval(self) -> JVal {
        JVal::Obj(present(self.slots()))
    }

    pub fn to_json(self) -> (r: Json)
        ensures
            jv(r) == self.jval(),
    {
        let mut es: Vec<(String, Json)> = Vec::new();
        push_entry(&mut es, "query", take_or_null(self.query));
        push_entry(&mut es, "fields", strings_to_json(self.fields));
        if let Some(t) = self.query_type {
            push_entry(&mut es, "type", t.to_json());
        }
        if let Some(o) = self.operator {
            push_entry(&mut es, "operator", o.to_json());
        }
        if let Some(s) = self.minimum_should_match {
            push_entry(&mut es, "minimum_should_match", Json::Str(s));
        }
        if let Some(d) = self.tie_breaker {
            push_entry(&mut es, "tie_breaker", Json::Num(d));
        }
        if let Some(s) = self.analyzer {
            push_entry(&mut es, "analyzer", Json::Str(s));
        }
        if let Some(b) = self.boost {
            push_entry(&mut es, "boost", Json::Num(b));
        }
        if let Some(f) = self.fuzziness {
            push_entry(&mut es, "fuzziness", f.to_json());
        }
        if let Some(t) = self.fuzzy_transpositions {
            push_entry(&mut es, "fuzzy_transpositions", Json::Bool(t));
        }
        if let Some(l) = self.lenient {
            push_entry(&mut es, "lenient", Json::Bool(l));
        }
        if let Some(p) = self.prefix_length {
            push_entry(&mut es, "prefix_length", Json::uint(p));
        }
        if let Some(m) = self.max_expansions {
            push_entry(&mut es, "max_expansions", Json::uint(m));
        }
        if let Some(a) = self.auto_generate_synonyms_phrase_query {
            push_entry(&mut es, "auto_generate_synonyms_phrase_query", Json::Bool(a));
        }
        if let Some(z) = self.zero_terms_query {
            push_entry(&mut es, "zero_terms_query", z.to_json());
        }
        Json::Obj(es)
    }
}

} // verus!
