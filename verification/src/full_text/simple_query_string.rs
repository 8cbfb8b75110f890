use crate::json::{
    jv, opt_bool, opt_str, opt_u64, present, push_entry, str_list_jval, str_or_null,
    strings_to_json, take_str_or_null, JVal, Json,
};
use crate::misc::operator::{opt_operator, Operator};
use vstd::prelude::*;

verus! {

broadcast use crate::json::lemma_present_push;

/// Parses its input in a simple, never-failing query grammar and searches
/// several fields with it.  `query` and `fields` are always emitted.
#[derive(Debug)]
pub struct SimpleQueryString {
    pub query: Option<String>,
    pub fields: Vec<String>,
    pub flags: Option<String>,
    pub fuzzy_transpositions: Option<bool>,
    pub fuzzy_max_expansions: Option<u64>,
    pub fuzzy_prefix_length: Option<u64>,
    pub minimum_should_match: Option<String>,
    pub default_operator: Option<Operator>,
    pub analyzer: Option<String>,
    pub lenient: Option<bool>,
    pub quote_field_suffix: Option<String>,
    pub analyze_wildcard: Option<bool>,
    pub auto_generate_synonyms_phrase_query: Option<bool>,
}

impl SimpleQueryString {
    pub fn new() -> (r: Self)
        ensures
            r.query is None,
            r.fields@ == Seq::<String>::empty(),
            r.flags is None,
            r.fuzzy_transpositions is None,
            r.fuzzy_max_expansions is None,
            r.fuzzy_prefix_length is None,
            r.minimum_should_match is None,
            r.default_operator is None,
            r.analyzer is None,
            r.lenient is None,
            r.quote_field_suffix is None,
            r.analyze_wildcard is None,
            r.auto_generate_synonyms_phrase_query is None,
    {
        SimpleQueryString {
            query: None,
            fields: Vec::new(),
            flags: None,
            fuzzy_transpositions: None,
            fuzzy_max_expansions: None,
            fuzzy_prefix_length: None,
            minimum_should_match: None,
            default_operator: None,
            analyzer: None,
            lenient: None,
            quote_field_suffix: None,
            analyze_wildcard: None,
            auto_generate_synonyms_phrase_query: None,
        }
    }

    pub fn fields(self, fields: Vec<String>) -> (r: Self)
        ensures
            r == (SimpleQueryString { fields, ..self }),
    {
        SimpleQueryString { fields, ..self }
    }

    /// Appends one more field to the searched list.
    pub fn field(self, field: String) -> (r: Self)
        ensures
            r.fields@ == self.fields@.push(field),
            r == (SimpleQueryString { fields: r.fields, ..self }),
    {
        let mut fields = self.fields;
        fields.push(field);
        SimpleQueryString { fields, ..self }
    }

    pub fn value(self, value: String) -> (r: Self)
        ensures
            r == (SimpleQueryString { query: Some(value), ..self }),
    {
        SimpleQueryString { query: Some(value), ..self }
    }

    /// The same setter under the wire name of the attribute.
    pub fn query(self, query: String) -> (r: Self)
        ensures
            r == (SimpleQueryString { query: Some(query), ..self }),
    {
        self.value(query)
    }

    pub fn flags(self, flags: String) -> (r: Self)
        ensures
            r == (SimpleQueryString { flags: Some(flags), ..self }),
    {
        SimpleQueryString { flags: Some(flags), ..self }
    }

    pub fn fuzzy_transpositions(self, fuzzy_transpositions: bool) -> (r: Self)
        ensures
            r == (SimpleQueryString { fuzzy_transpositions: Some(fuzzy_transpositions), ..self }),
    {
        SimpleQueryString { fuzzy_transpositions: Some(fuzzy_transpositions), ..self }
    }

    pub fn fuzzy_max_expansions(self, fuzzy_max_expansions: u64) -> (r: Self)
        ensures
            r == (SimpleQueryString { fuzzy_max_expansions: Some(fuzzy_max_expansions), ..self }),
    {
        SimpleQueryString { fuzzy_max_expansions: Some(fuzzy_max_expansions), ..self }
    }

    pub fn fuzzy_prefix_length(self, fuzzy_prefix_length: u64) -> (r: Self)
        ensures
            r == (SimpleQueryString { fuzzy_prefix_length: Some(fuzzy_prefix_length), ..self }),
    {
        SimpleQueryString { fuzzy_prefix_length: Some(fuzzy_prefix_length), ..self }
    }

    pub fn minimum_should_match(self, minimum_should_match: String) -> (r: Self)
        ensures
            r == (SimpleQueryString { minimum_should_match: Some(minimum_should_match), ..self }),
    {
        SimpleQueryString { minimum_should_match: Some(minimum_should_match), ..self }
    }

    pub fn default_operator(self, default_operator: Operator) -> (r: Self)
        ensures
            r == (SimpleQueryString { default_operator: Some(default_operator), ..self }),
    {
        SimpleQueryString { default_operator: Some(default_operator), ..self }
    }

    pub fn analyzer(self, analyzer: String) -> (r: Self)
        ensures
            r == (SimpleQueryString { analyzer: Some(analyzer), ..self }),
    {
        SimpleQueryString { analyzer: Some(analyzer), ..self }
    }

    pub fn lenient(self, lenient: bool) -> (r: Self)
        ensures
            r == (SimpleQueryString { lenient: Some(lenient), ..self }),
    {
        SimpleQueryString { lenient: Some(lenient), ..self }
    }

    pub fn quote_field_suffix(self, quote_field_suffix: String) -> (r: Self)
        ensures
            r == (SimpleQueryString { quote_field_suffix: Some(quote_field_suffix), ..self }),
    {
        SimpleQueryString { quote_field_suffix: Some(quote_field_suffix), ..self }
    }

    pub fn analyze_wildcard(self, analyze_wildcard: bool) -> (r: Self)
        ensures
            r == (SimpleQueryString { analyze_wildcard: Some(analyze_wildcard), ..self }),
    {
        SimpleQueryString { analyze_wildcard: Some(analyze_wildcard), ..self }
    }

    pub fn auto_generate_synonyms_phrase_query(self, auto_generate_synonyms_phrase_query: bool) -> (r: Self)
        ensures
            r == (SimpleQueryString { auto_generate_synonyms_phrase_query: Some(auto_generate_synonyms_phrase_query), ..self }),
    {
        SimpleQueryString { auto_generate_synonyms_phrase_query: Some(auto_generate_synonyms_phrase_query), ..self }
    }

    pub open spec fn slots(self) -> Seq<(Seq<char>, Option<JVal>)> {
        Seq::empty()
            .push(("query"@, Some(str_or_null(self.query))))
            .push(("fields"@, Some(JVal::Arr(str_list_jval(self.fields@)))))
            .push(("flags"@, opt_str(self.flags)))
            .push(("fuzzy_transpositions"@, opt_bool(self.fuzzy_transpositions)))
            .push(("fuzzy_max_expansions"@, opt_u64(self.fuzzy_max_expansions)))
            .push(("fuzzy_prefix_length"@, opt_u64(self.fuzzy_prefix_length)))
            .push(("minimum_should_match"@, opt_str(self.minimum_should_match)))
            .push(("default_operator"@, opt_operator(self.default_operator)))
            .push(("analyzer"@, opt_str(self.analyzer)))
            .push(("lenient"@, opt_bool(self.lenient)))
            .push(("quote_field_suffix"@, opt_str(self.quote_field_suffix)))
            .push(("analyze_wildcard"@, opt_bool(self.analyze_wildcard)))
            .push(("auto_generate_synonyms_phrase_query"@, opt_bool(self.auto_generate_synonyms_phrase_query)))
    }

    pub open spec fn jval(self) -> JVal {
        JVal::Obj(present(self.slots()))
    }

    #[verifier::rlimit(100)]
    pub fn to_json(self) -> (r: Json)
        ensures
            jv(r) == self.jval(),
    {
        let mut es: Vec<(String, Json)> = Vec::new();
        push_entry(&mut es, "query", take_str_or_null(self.query));
        push_entry(&mut es, "fields", strings_to_json(self.fields));
        if let Some(x) = self.flags {
            push_entry(&mut es, "flags", Json::Str(x));
        }
        if let Some(x) = self.fuzzy_transpositions {
            push_entry(&mut es, "fuzzy_transpositions", Json::Bool(x));
        }
        if let Some(x) = self.fuzzy_max_expansions {
            push_entry(&mut es, "fuzzy_max_expansions", Json::uint(x));
        }
        if let Some(x) = self.fuzzy_prefix_length {
            push_entry(&mut es, "fuzzy_prefix_length", Json::uint(x));
        }
        if let Some(x) = self.minimum_should_match {
            push_entry(&mut es, "minimum_should_match", Json::Str(x));
        }
        if let Some(x) = self.default_operator {
            push_entry(&mut es, "default_operator", x.to_json());
        }
        if let Some(x) = self.analyzer {
            push_entry(&mut es, "analyzer", Json::Str(x));
        }
        if let Some(x) = self.lenient {
            push_entry(&mut es, "lenient", Json::Bool(x));
        }
        if let Some(x) = self.quote_field_suffix {
            push_entry(&mut es, "quote_field_suffix", Json::Str(x));
        }
        if let Some(x) = self.analyze_wildcard {
            push_entry(&mut es, "analyze_wildcard", Json::Bool(x));
        }
        if let Some(x) = self.auto_generate_synonyms_phrase_query {
            push_entry(&mut es, "auto_generate_synonyms_phrase_query", Json::Bool(x));
        }
        Json::Obj(es)
    }
}

} // verus!
