use crate::json::{
    bool_slot, dec_slot, jv, opt_bool, opt_dec, opt_str, opt_u64, present, push_entry,
    push_opt_slot, str_or_null, str_slot, take_str_or_null, u64_slot, Decimal, JVal, Json,
};
use crate::misc::fuzziness::{fuzziness_slot, opt_fuzziness, Fuzziness};
use crate::misc::operator::{operator_slot, opt_operator, Operator};
use crate::misc::query_type::{type_slot, opt_type, Type};
use vstd::prelude::*;

verus! {

broadcast use crate::json::lemma_present_push_slot;

/// Parses its input in a compact query grammar and searches with it.
/// `query` is always emitted, as `null` when never set; the matching
/// strategy goes out under the wire name `type`.
#[derive(Debug)]
pub struct QueryString {
    pub query: Option<String>,
    pub default_field: Option<String>,
    pub query_type: Option<Type>,
    pub fuzziness: Option<Fuzziness>,
    pub fuzzy_transpositions: Option<bool>,
    pub fuzzy_max_expansions: Option<u64>,
    pub fuzzy_prefix_length: Option<u64>,
    pub minimum_should_match: Option<String>,
    pub default_operator: Option<Operator>,
    pub analyzer: Option<String>,
    pub lenient: Option<bool>,
    pub boost: Option<Decimal>,
    pub allow_leading_wildcard: Option<bool>,
    pub enable_position_increments: Option<bool>,
    pub phrase_slop: Option<u64>,
    pub max_determinized_states: Option<u64>,
    pub time_zone: Option<String>,
    pub quote_field_suffix: Option<String>,
    pub quote_analyzer: Option<String>,
    pub analyze_wildcard: Option<bool>,
    pub auto_generate_synonyms_phrase_query: Option<bool>,
}

impl QueryString {
    pub fn new() -> (r: Self)
        ensures
            r.query is None,
            r.default_field is None,
            r.query_type is None,
            r.fuzziness is None,
            r.fuzzy_transpositions is None,
            r.fuzzy_max_expansions is None,
            r.fuzzy_prefix_length is None,
            r.minimum_should_match is None,
            r.default_operator is None,
            r.analyzer is None,
            r.lenient is None,
            r.boost is None,
            r.allow_leading_wildcard is None,
            r.enable_position_increments is None,
            r.phrase_slop is None,
            r.max_determinized_states is None,
            r.time_zone is None,
            r.quote_field_suffix is None,
            r.quote_analyzer is None,
            r.analyze_wildcard is None,
            r.auto_generate_synonyms_phrase_query is None,
    {
        QueryString {
            query: None,
            default_field: None,
            query_type: None,
            fuzziness: None,
            fuzzy_transpositions: None,
            fuzzy_max_expansions: None,
            fuzzy_prefix_length: None,
            minimum_should_match: None,
            default_operator: None,
            analyzer: None,
            lenient: None,
            boost: None,
            allow_leading_wildcard: None,
            enable_position_increments: None,
            phrase_slop: None,
            max_determinized_states: None,
            time_zone: None,
            quote_field_suffix: None,
            quote_analyzer: None,
            analyze_wildcard: None,
            auto_generate_synonyms_phrase_query: None,
        }
    }

    pub fn value(self, value: String) -> (r: Self)
        ensures
            r == (QueryString { query: Some(value), ..self }),
    {
        QueryString { query: Some(value), ..self }
    }

    /// The same setter under the wire name of the attribute.
    pub fn query(self, query: String) -> (r: Self)
        ensures
            r == (QueryString { query: Some(query), ..self }),
    {
        self.value(query)
    }

    pub fn default_field(self, default_field: String) -> (r: Self)
        ensures
            r == (QueryString { default_field: Some(default_field), ..self }),
    {
        QueryString { default_field: Some(default_field), ..self }
    }

    pub fn query_type(self, query_type: Type) -> (r: Self)
        ensures
            r == (QueryString { query_type: Some(query_type), ..self }),
    {
        QueryString { query_type: Some(query_type), ..self }
    }

    pub fn fuzziness(self, fuzziness: Fuzziness) -> (r: Self)
        ensures
            r == (QueryString { fuzziness: Some(fuzziness), ..self }),
    {
        QueryString { fuzziness: Some(fuzziness), ..self }
    }

    pub fn fuzzy_transpositions(self, fuzzy_transpositions: bool) -> (r: Self)
        ensures
            r == (QueryString { fuzzy_transpositions: Some(fuzzy_transpositions), ..self }),
    {
        QueryString { fuzzy_transpositions: Some(fuzzy_transpositions), ..self }
    }

    pub fn fuzzy_max_expansions(self, fuzzy_max_expansions: u64) -> (r: Self)
        ensures
            r == (QueryString { fuzzy_max_expansions: Some(fuzzy_max_expansions), ..self }),
    {
        QueryString { fuzzy_max_expansions: Some(fuzzy_max_expansions), ..self }
    }

    pub fn fuzzy_prefix_length(self, fuzzy_prefix_length: u64) -> (r: Self)
        ensures
            r == (QueryString { fuzzy_prefix_length: Some(fuzzy_prefix_length), ..self }),
    {
        QueryString { fuzzy_prefix_length: Some(fuzzy_prefix_length), ..self }
    }

    pub fn minimum_should_match(self, minimum_should_match: String) -> (r: Self)
        ensures
            r == (QueryString { minimum_should_match: Some(minimum_should_match), ..self }),
    {
        QueryString { minimum_should_match: Some(minimum_should_match), ..self }
    }

    pub fn default_operator(self, default_operator: Operator) -> (r: Self)
        ensures
            r == (QueryString { default_operator: Some(default_operator), ..self }),
    {
        QueryString { default_operator: Some(default_operator), ..self }
    }

    pub fn analyzer(self, analyzer: String) -> (r: Self)
        ensures
            r == (QueryString { analyzer: Some(analyzer), ..self }),
    {
        QueryString { analyzer: Some(analyzer), ..self }
    }

    pub fn lenient(self, lenient: bool) -> (r: Self)
        ensures
            r == (QueryString { lenient: Some(lenient), ..self }),
    {
        QueryString { lenient: Some(lenient), ..self }
    }

    pub fn boost(self, boost: Decimal) -> (r: Self)
        ensures
            r == (QueryString { boost: Some(boost), ..self }),
    {
        QueryString { boost: Some(boost), ..self }
    }

    pub fn allow_leading_wildcard(self, allow_leading_wildcard: bool) -> (r: Self)
        ensures
            r == (QueryString { allow_leading_wildcard: Some(allow_leading_wildcard), ..self }),
    {
        QueryString { allow_leading_wildcard: Some(allow_leading_wildcard), ..self }
    }

    pub fn enable_position_increments(self, enable_position_increments: bool) -> (r: Self)
        ensures
            r == (QueryString { enable_position_increments: Some(enable_position_increments), ..self }),
    {
        QueryString { enable_position_increments: Some(enable_position_increments), ..self }
    }

    pub fn phrase_slop(self, phrase_slop: u64) -> (r: Self)
        ensures
            r == (QueryString { phrase_slop: Some(phrase_slop), ..self }),
    {
        QueryString { phrase_slop: Some(phrase_slop), ..self }
    }

    pub fn max_determinized_states(self, max_determinized_states: u64) -> (r: Self)
        ensures
            r == (QueryString { max_determinized_states: Some(max_determinized_states), ..self }),
    {
        QueryString { max_determinized_states: Some(max_determinized_states), ..self }
    }

    pub fn time_zone(self, time_zone: String) -> (r: Self)
        ensures
            r == (QueryString { time_zone: Some(time_zone), ..self }),
    {
        QueryString { time_zone: Some(time_zone), ..self }
    }

    pub fn quote_field_suffix(self, quote_field_suffix: String) -> (r: Self)
        ensures
            r == (QueryString { quote_field_suffix: Some(quote_field_suffix), ..self }),
    {
        QueryString { quote_field_suffix: Some(quote_field_suffix), ..self }
    }

    pub fn quote_analyzer(self, quote_analyzer: String) -> (r: Self)
        ensures
            r == (QueryString { quote_analyzer: Some(quote_analyzer), ..self }),
    {
        QueryString { quote_analyzer: Some(quote_analyzer), ..self }
    }

    pub fn analyze_wildcard(self, analyze_wildcard: bool) -> (r: Self)
        ensures
            r == (QueryString { analyze_wildcard: Some(analyze_wildcard), ..self }),
    {
        QueryString { analyze_wildcard: Some(analyze_wildcard), ..self }
    }

    pub fn auto_generate_synonyms_phrase_query(self, auto_generate_synonyms_phrase_query: bool) -> (r: Self)
        ensures
            r == (QueryString { auto_generate_synonyms_phrase_query: Some(auto_generate_synonyms_phrase_query), ..self }),
    {
        QueryString { auto_generate_synonyms_phrase_query: Some(auto_generate_synonyms_phrase_query), ..self }
    }

    pub open spec fn slots(self) -> Seq<(Seq<char>, Option<JVal>)> {
        Seq::empty()
            .push(("query"@, Some(str_or_null(self.query))))
            .push(("default_field"@, opt_str(self.default_field)))
            .push(("type"@, opt_type(self.query_type)))
            .push(("fuzziness"@, opt_fuzziness(self.fuzziness)))
            .push(("fuzzy_transpositions"@, opt_bool(self.fuzzy_transpositions)))
            .push(("fuzzy_max_expansions"@, opt_u64(self.fuzzy_max_expansions)))
            .push(("fuzzy_prefix_length"@, opt_u64(self.fuzzy_prefix_length)))
            .push(("minimum_should_match"@, opt_str(self.minimum_should_match)))
            .push(("default_operator"@, opt_operator(self.default_operator)))
            .push(("analyzer"@, opt_str(self.analyzer)))
            .push(("lenient"@, opt_bool(self.lenient)))
            .push(("boost"@, opt_dec(self.boost)))
            .push(("allow_leading_wildcard"@, opt_bool(self.allow_leading_wildcard)))
            .push(("enable_position_increments"@, opt_bool(self.enable_position_increments)))
            .push(("phrase_slop"@, opt_u64(self.phrase_slop)))
            .push(("max_determinized_states"@, opt_u64(self.max_determinized_states)))
            .push(("time_zone"@, opt_str(self.time_zone)))
            .push(("quote_field_suffix"@, opt_str(self.quote_field_suffix)))
            .push(("quote_analyzer"@, opt_str(self.quote_analyzer)))
            .push(("analyze_wildcard"@, opt_bool(self.analyze_wildcard)))
            .push(("auto_generate_synonyms_phrase_query"@, opt_bool(self.auto_generate_synonyms_phrase_query)))
    }

    pub open spec fn jval(self) -> JVal {
        JVal::Obj(present(self.slots()))
    }

    pub fn to_json(self) -> (r: Json)
        ensures
            jv(r) == self.jval(),
    {
        let mut es: Vec<(String, Json)> = Vec::new();
        push_entry(&mut es, "query", take_str_or_null(self.query));
        push_opt_slot(&mut es, "default_field", str_slot(self.default_field));
        push_opt_slot(&mut es, "type", type_slot(self.query_type));
        push_opt_slot(&mut es, "fuzziness", fuzziness_slot(self.fuzziness));
        push_opt_slot(&mut es, "fuzzy_transpositions", bool_slot(self.fuzzy_transpositions));
        push_opt_slot(&mut es, "fuzzy_max_expansions", u64_slot(self.fuzzy_max_expansions));
        push_opt_slot(&mut es, "fuzzy_prefix_length", u64_slot(self.fuzzy_prefix_length));
        push_opt_slot(&mut es, "minimum_should_match", str_slot(self.minimum_should_match));
        push_opt_slot(&mut es, "default_operator", operator_slot(self.default_operator));
        push_opt_slot(&mut es, "analyzer", str_slot(self.analyzer));
        push_opt_slot(&mut es, "lenient", bool_slot(self.lenient));
        push_opt_slot(&mut es, "boost", dec_slot(self.boost));
        push_opt_slot(&mut es, "allow_leading_wildcard", bool_slot(self.allow_leading_wildcard));
        push_opt_slot(
            &mut es,
            "enable_position_increments",
            bool_slot(self.enable_position_increments),
        );
        push_opt_slot(&mut es, "phrase_slop", u64_slot(self.phrase_slop));
        push_opt_slot(&mut es, "max_determinized_states", u64_slot(self.max_determinized_states));
        push_opt_slot(&mut es, "time_zone", str_slot(self.time_zone));
        push_opt_slot(&mut es, "quote_field_suffix", str_slot(self.quote_field_suffix));
        push_opt_slot(&mut es, "quote_analyzer", str_slot(self.quote_analyzer));
        push_opt_slot(&mut es, "analyze_wildcard", bool_slot(self.analyze_wildcard));
        push_opt_slot(
            &mut es,
            "auto_generate_synonyms_phrase_query",
            bool_slot(self.auto_generate_synonyms_phrase_query),
        );
        Json::Obj(es)
    }
}

} // verus!
