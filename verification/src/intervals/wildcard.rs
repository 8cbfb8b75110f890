use crate::json::{jv, opt_str, present, push_entry, JVal, Json};
use vstd::prelude::*;

verus! {

broadcast use crate::json::lemma_present_push;

/// An interval rule matching the terms that fit a wildcard pattern.
#[derive(Debug)]
pub struct WildcardRule {
    pub pattern: String,
    pub analyzer: Option<String>,
    pub use_field: Option<String>,
}

impl WildcardRule {
    pub fn new() -> (r: Self)
        ensures
            r.pattern@ == Seq::<char>::empty(),
            r.analyzer is None,
            r.use_field is None,
    {
        WildcardRule { pattern: String::new(), analyzer: None, use_field: None }
    }

    pub fn pattern(self, pattern: String) -> (r: Self)
        ensures
            r == (WildcardRule { pattern, ..self }),
    {
        WildcardRule { pattern, ..self }
    }

    pub fn analyzer(self, analyzer: String) -> (r: Self)
        ensures
            r == (WildcardRule { analyzer: Some(analyzer), ..self }),
    {
        WildcardRule { analyzer: Some(analyzer), ..self }
    }

    pub fn use_field(self, use_field: String) -> (r: Self)
        ensures
            r == (WildcardRule { use_field: Some(use_field), ..self }),
    {
        WildcardRule { use_field: Some(use_field), ..self }
    }

    pub open spec fn slots(self) -> Seq<(Seq<char>, Option<JVal>)> {
        Seq::empty().push(("pattern"@, Some(JVal::Str(self.pattern@)))).push(
            ("analyzer"@, opt_str(self.analyzer)),
        ).push(("use_field"@, opt_str(self.use_field)))
    }

    pub open spec fn jval(self) -> JVal {
        JVal::Obj(present(self.slots()))
    }

    pub fn to_json(self) -> (r: Json)
        ensures
            jv(r) == self.jval(),
    {
        let mut es: Vec<(String, Json)> = Vec::new();
        push_entry(&mut es, "pattern", Json::Str(self.pattern));
        if let Some(s) = self.analyzer {
            push_entry(&mut es, "analyzer", Json::Str(s));
        }
        if let Some(s) = self.use_field {
            push_entry(&mut es, "use_field", Json::Str(s));
        }
        Json::Obj(es)
    }
}

} // verus!
