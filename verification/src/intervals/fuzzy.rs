use crate::json::{jv, opt_bool, opt_i64, opt_str, present, push_entry, JVal, Json};
use crate::misc::fuzziness::{opt_fuzziness, Fuzziness};
use vstd::prelude::*;

verus! {

broadcast use crate::json::lemma_present_push;

/// An interval rule matching the terms within an edit distance of a term.
#[derive(Debug)]
pub struct FuzzyRule {
    pub term: String,
    pub analyzer: Option<String>,
    pub fuzziness: Option<Fuzziness>,
    pub transpositions: Option<bool>,
    pub prefix_length: Option<i64>,
    pub use_field: Option<String>,
}

impl FuzzyRule {
    pub fn new() -> (r: Self)
        ensures
            r.term@ == Seq::<char>::empty(),
            r.analyzer is None,
            r.fuzziness is None,
            r.transpositions is None,
            r.prefix_length is None,
            r.use_field is None,
    {
        FuzzyRule {
            term: String::new(),
            analyzer: None,
            fuzziness: None,
            transpositions: None,
            prefix_length: None,
            use_field: None,
        }
    }

    pub fn term(self, term: String) -> (r: Self)
        ensures
            r == (FuzzyRule { term, ..self }),
    {
        FuzzyRule { term, ..self }
    }

    pub fn analyzer(self, analyzer: String) -> (r: Self)
        ensures
            r == (FuzzyRule { analyzer: Some(analyzer), ..self }),
    {
        FuzzyRule { analyzer: Some(analyzer), ..self }
    }

    pub fn fuzziness(self, fuzziness: Fuzziness) -> (r: Self)
        ensures
            r == (FuzzyRule { fuzziness: Some(fuzziness), ..self }),
    {
        FuzzyRule { fuzziness: Some(fuzziness), ..self }
    }

    pub fn transpositions(self, transpositions: bool) -> (r: Self)
        ensures
            r == (FuzzyRule { transpositions: Some(transpositions), ..self }),
    {
        FuzzyRule { transpositions: Some(transpositions), ..self }
    }

    pub fn prefix_length(self, prefix_length: i64) -> (r: Self)
        ensures
            r == (FuzzyRule { prefix_length: Some(prefix_length), ..self }),
    {
        FuzzyRule { prefix_length: Some(prefix_length), ..self }
    }

    pub fn use_field(self, use_field: String) -> (r: Self)
        ensures
            r == (FuzzyRule { use_field: Some(use_field), ..self }),
    {
        FuzzyRule { use_field: Some(use_field), ..self }
    }

    pub open spec fn slots(self) -> Seq<(Seq<char>, Option<JVal>)> {
        Seq::empty().push(("term"@, Some(JVal::Str(self.term@)))).push(
            ("analyzer"@, opt_str(self.analyzer)),
        ).push(("fuzziness"@, opt_fuzziness(self.fuzziness))).push(
            ("transpositions"@, opt_bool(self.transpositions)),
        ).push(("prefix_length"@, opt_i64(self.prefix_length))).push(
            ("use_field"@, opt_str(self.use_field)),
        )
    }

    pub open spec fn jval(self) -> JVal {
        JVal::Obj(present(self.slots()))
    }

    pub fn to_json(self) -> (r: Json)
        ensures
            jv(r) == self.jval(),
    {
        let mut es: Vec<(String, Json)> = Vec::new();
        push_entry(&mut es, "term", Json::Str(self.term));
        if let Some(s) = self.analyzer {
            push_entry(&mut es, "analyzer", Json::Str(s));
        }
        if let Some(f) = self.fuzziness {
            push_entry(&mut es, "fuzziness", f.to_json());
        }
        if let Some(t) = self.transpositions {
            push_entry(&mut es, "transpositions", Json::Bool(t));
        }
        if let Some(p) = self.prefix_length {
            push_entry(&mut es, "prefix_length", Json::Int(p as i128));
        }
        if let Some(s) = self.use_field {
            push_entry(&mut es, "use_field", Json::Str(s));
        }
        Json::Obj(es)
    }
}

} // verus!
