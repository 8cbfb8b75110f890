use crate::json::{
    field_key, json_or_null, jv, key_or_empty, opt_str, opt_u64, present, push_entry,
    take_or_null, wrap_key, JVal, Json,
};
use vstd::prelude::*;

verus! {

broadcast use crate::json::lemma_present_push;

/// The attribute object of a match-phrase query; `query` is always emitted,
/// as `null` when never set.
#[derive(Debug)]
pub struct MatchPhraseValues {
    pub query: Option<Json>,
    pub slop: Option<u64>,
    pub analyzer: Option<String>,
    pub zero_terms_query: Option<String>,
}

/// Matches an exact phrase, keyed by the field name.
#[derive(Debug)]
pub struct MatchPhrase {
    pub field: Option<String>,
    pub value: MatchPhraseValues,
}

impl MatchPhrase {
    pub fn new() -> (r: Self)
        ensures
            r.field is None,
            r.value.query is None,
            r.value.slop is None,
            r.value.analyzer is None,
            r.value.zero_terms_query is None,
    {
        MatchPhrase {
            field: None,
            value: MatchPhraseValues {
                query: None,
                slop: None,
                analyzer: None,
                zero_terms_query: None,
            },
        }
    }

    pub fn field(self, field: String) -> (r: Self)
        ensures
            r == (MatchPhrase { field: Some(field), ..self }),
    {
        MatchPhrase { field: Some(field), ..self }
    }

    pub fn value(self, val: Json) -> (r: Self)
        ensures
            r == (MatchPhrase {
                value: MatchPhraseValues { query: Some(val), ..self.value },
                ..self
            }),
    {
        MatchPhrase { value: MatchPhraseValues { query: Some(val), ..self.value }, ..self }
    }

    /// The same setter under the wire name of the attribute.
    pub fn query(self, value: Json) -> (r: Self)
        ensures
            r == (MatchPhrase {
                value: MatchPhraseValues { query: Some(value), ..self.value },
                ..self
            }),
    {
        self.value(value)
    }

    pub fn slop(self, slop: u64) -> (r: Self)
        ensures
            r == (MatchPhrase {
                value: MatchPhraseValues { slop: Some(slop), ..self.value },
                ..self
            }),
    {
        MatchPhrase { value: MatchPhraseValues { slop: Some(slop), ..self.value }, ..self }
    }

    pub fn analyzer(self, analyzer: String) -> (r: Self)
        ensures
            r == (MatchPhrase {
                value: MatchPhraseValues { analyzer: Some(analyzer), ..self.value },
                ..self
            }),
    {
        MatchPhrase { value: MatchPhraseValues { analyzer: Some(analyzer), ..self.value }, ..self }
    }

    pub fn zero_terms_query(self, zero_terms_query: String) -> (r: Self)
        ensures
            r == (MatchPhrase {
                value: MatchPhraseValues {
                    zero_terms_query: Some(zero_terms_query),
                    ..self.value
                },
                ..self
            }),
    {
        MatchPhrase {
            value: MatchPhraseValues { zero_terms_query: Some(zero_terms_query), ..self.value },
            ..self
        }
    }

    pub open spec fn slots(self) -> Seq<(Seq<char>, Option<JVal>)> {
        Seq::empty().push(("query"@, Some(json_or_null(self.value.query)))).push(
            ("slop"@, opt_u64(self.value.slop)),
        ).push(("analyzer"@, opt_str(self.value.analyzer))).push(
            ("zero_terms_query"@, opt_str(self.value.zero_terms_query)),
        )
    }

    pub open spec fn jval(self) -> JVal {
        JVal::Obj(
            Seq::empty().push((field_key(self.field), JVal::Obj(present(self.slots())))),
        )
    }

    pub fn to_json(self) -> (r: Json)
        ensures
            jv(r) == self.jval(),
    {
        let mut es: Vec<(String, Json)> = Vec::new();
        push_entry(&mut es, "query", take_or_null(self.value.query));
        if let Some(s) = self.value.slop {
            push_entry(&mut es, "slop", Json::uint(s));
        }
        if let Some(s) = self.value.analyzer {
            push_entry(&mut es, "analyzer", Json::Str(s));
        }
        if let Some(s) = self.value.zero_terms_query {
            push_entry(&mut es, "zero_terms_query", Json::Str(s));
        }
        wrap_key(key_or_empty(self.field), Json::Obj(es))
    }
}

} // verus!
