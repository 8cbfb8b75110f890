use crate::json::{append_u64, dec_str, jv, JVal, Json};
use vstd::prelude::*;
use vstd::string::StringExecFns;

verus! {

/// How a multi-term query is rewritten: three fixed tokens, and three
/// parameterised families whose token carries the top-N count verbatim.
#[derive(Clone, Copy, Debug)]
pub enum Rewrite {
    ConstantScore,
    ScoringBoolean,
    ConstantScoreBoolean,
    TopTerms(u64),
    TopTermsBoost(u64),
    TopTermsBlendedFreqs(u64),
}

impl Rewrite {
    /// The exact wire token, e.g. `top_terms_1` for `TopTerms(1)`.
    pub open spec fn token(self) -> Seq<char> {
        match self {
            Rewrite::ConstantScore => "constant_score"@,
            Rewrite::ScoringBoolean => "scoring_boolean"@,
            Rewrite::ConstantScoreBoolean => "constant_score_boolean"@,
            Rewrite::TopTerms(u) => "top_terms_"@ + dec_str(u as nat),
            Rewrite::TopTermsBoost(u) => "top_terms_boost_"@ + dec_str(u as nat),
            Rewrite::TopTermsBlendedFreqs(u) => "top_terms_blended_freqs_"@ + dec_str(u as nat),
        }
    }

    pub open spec fn jval(self) -> JVal {
        JVal::Str(self.token())
    }

    /// The token as an owned string, for callers that want the bare text.
    pub fn token_string(self) -> (r: String)
        ensures
            r@ == self.token(),
    {
        match self {
            Rewrite::ConstantScore => String::from_str("constant_score"),
            Rewrite::ScoringBoolean => String::from_str("scoring_boolean"),
            Rewrite::ConstantScoreBoolean => String::from_str("constant_score_boolean"),
            Rewrite::TopTerms(u) => {
                let mut s = String::from_str("top_terms_");
                append_u64(&mut s, u);
                s
            },
            Rewrite::TopTermsBoost(u) => {
                let mut s = String::from_str("top_terms_boost_");
                append_u64(&mut s, u);
                s
            },
            Rewrite::TopTermsBlendedFreqs(u) => {
                let mut s = String::from_str("top_terms_blended_freqs_");
                append_u64(&mut s, u);
                s
            },
        }
    }

    pub fn to_json(self) -> (r: Json)
        ensures
            jv(r) == self.jval(),
    {
        Json::Str(self.token_string())
    }
}

pub open spec fn opt_rewrite(o: Option<Rewrite>) -> Option<JVal> {
    match o {
        Some(x) => Some(x.jval()),
        None => None,
    }
}


pub fn rewrite_slot(o: Option<Rewrite>) -> (r: Option<Json>)
    ensures
        crate::json::opt_json(r) == opt_rewrite(o),
{
    match o {
        Some(x) => Some(x.to_json()),
        None => None,
    }
}

} // verus!
