use crate::json::{has_key, jv, push_entry, opt_str, present, JVal, Json};
use vstd::prelude::*;

verus! {

broadcast use crate::json::lemma_jv_entries_push, crate::json::lemma_present_push;

/// An inline script: its source text and an optional language tag.
#[derive(Debug)]
pub struct Script {
    pub source: String,
    pub lang: Option<String>,
}

impl Script {
    pub fn new() -> (r: Self)
        ensures
            r.source@ == Seq::<char>::empty(),
            r.lang is None,
    {
        Script { source: String::new(), lang: None }
    }

    pub fn source(self, source: String) -> (r: Self)
        ensures
            r == (Script { source, ..self }),
    {
        Script { source, ..self }
    }

    pub fn lang(self, lang: String) -> (r: Self)
        ensures
            r == (Script { lang: Some(lang), ..self }),
    {
        Script { lang: Some(lang), ..self }
    }

    pub open spec fn slots(self) -> Seq<(Seq<char>, Option<JVal>)> {
        Seq::empty().push(("source"@, Some(JVal::Str(self.source@)))).push(
            ("lang"@, opt_str(self.lang)),
        )
    }

    pub open spec fn jval(self) -> JVal {
        JVal::Obj(present(self.slots()))
    }

    pub fn to_json(self) -> (r: Json)
        ensures
            jv(r) == self.jval(),
    {
        let mut es: Vec<(String, Json)> = Vec::new();
        push_entry(&mut es, "source", Json::Str(self.source));
        if let Some(l) = self.lang {
            push_entry(&mut es, "lang", Json::Str(l));
        }
        Json::Obj(es)
    }

    /// An unset language never appears among the emitted keys.
    pub proof fn lemma_lang_omitted_when_unset(self)
        requires
            self.lang is None,
        ensures
            self.jval() matches JVal::Obj(es) && !has_key(es, "lang"@),
    {
        reveal_strlit("source");
        reveal_strlit("lang");
        assert forall|i: int|
            0 <= i < self.slots().len() && self.slots()[i].0 == "lang"@ implies self.slots()[i].1
            is None by {
            assert("source"@.len() == 6);
            assert("lang"@.len() == 4);
            if i == 0 {
                assert(self.slots()[0].0 == "source"@);
            }
        }
        crate::json::lemma_present_omits(self.slots(), "lang"@);
    }
}

} // verus!
