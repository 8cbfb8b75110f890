use crate::compound_query::boolean::Bool;
use crate::compound_query::boosting::Boosting;
use crate::compound_query::constant_score::ConstantScore;
use crate::compound_query::disjunction_max::DisMax;
use crate::full_text::match_boolean_prefix::MatchBoolPrefix;
use crate::full_text::match_phrase::MatchPhrase;
use crate::full_text::match_phrase_prefix::MatchPhrasePrefix;
use crate::full_text::match_query::Match;
use crate::full_text::multi_match::MultiMatch;
use crate::full_text::query_string::QueryString;
use crate::full_text::simple_query_string::SimpleQueryString;
use crate::intervals::interval::Intervals;
use crate::json::{jv, jv_list, lemma_jv_list_push, wrap_tag, JVal, Json};
use crate::term::exists_query::Exists;
use crate::term::fuzzy::Fuzzy;
use crate::term::ids::IDs;
use crate::term::prefix::Prefix;
use crate::term::range::Range;
use crate::term::regexp::Regexp;
use crate::term::term::Term;
use crate::term::terms::Terms;
use crate::term::terms_set::TermsSet;
use crate::term::wildcard::Wildcard;
use vstd::prelude::*;

verus! {

/// Any query the model can express, tagged with its kind on the wire.
#[derive(Debug)]
pub enum QueryField {
    Match(Match),
    MultiMatch(MultiMatch),
    QueryString(QueryString),
    SimpleQueryString(SimpleQueryString),
    MatchPhrase(MatchPhrase),
    MatchPhrasePrefix(MatchPhrasePrefix),
    MatchBoolPrefix(MatchBoolPrefix),
    Terms(Terms),
    Term(Term),
    TermsSet(TermsSet),
    Intervals(Intervals),
    Bool(Bool),
    Boosting(Boosting),
    ConstantScore(ConstantScore),
    DisMax(DisMax),
    Wildcard(Wildcard),
    IDs(IDs),
    Fuzzy(Fuzzy),
    Prefix(Prefix),
    Regexp(Regexp),
    Exists(Exists),
    Range(Range),
}

impl QueryField {
    pub open spec fn jval(self) -> JVal
        decreases self, 2int,
    {
        match self {
            QueryField::Match(x) => JVal::Obj(Seq::empty().push(("match"@, x.jval()))),
            QueryField::MultiMatch(x) => JVal::Obj(
                Seq::empty().push(("multi_match"@, x.jval())),
            ),
            QueryField::QueryString(x) => JVal::Obj(
                Seq::empty().push(("query_string"@, x.jval())),
            ),
            QueryField::SimpleQueryString(x) => JVal::Obj(
                Seq::empty().push(("simple_query_string"@, x.jval())),
            ),
            QueryField::MatchPhrase(x) => JVal::Obj(
                Seq::empty().push(("match_phrase"@, x.jval())),
            ),
            QueryField::MatchPhrasePrefix(x) => JVal::Obj(
                Seq::empty().push(("match_phrase_prefix"@, x.jval())),
            ),
            QueryField::MatchBoolPrefix(x) => JVal::Obj(
                Seq::empty().push(("match_bool_prefix"@, x.jval())),
            ),
            QueryField::Terms(x) => JVal::Obj(Seq::empty().push(("terms"@, x.jval()))),
            QueryField::Term(x) => JVal::Obj(Seq::empty().push(("term"@, x.jval()))),
            QueryField::TermsSet(x) => JVal::Obj(Seq::empty().push(("terms_set"@, x.jval()))),
            QueryField::Intervals(x) => JVal::Obj(Seq::empty().push(("intervals"@, x.jval()))),
            QueryField::Bool(x) => JVal::Obj(Seq::empty().push(("bool"@, x.jval()))),
            QueryField::Boosting(x) => JVal::Obj(Seq::empty().push(("boosting"@, x.jval()))),
            QueryField::ConstantScore(x) => JVal::Obj(
                Seq::empty().push(("constant_score"@, x.jval())),
            ),
            QueryField::DisMax(x) => JVal::Obj(Seq::empty().push(("dis_max"@, x.jval()))),
            QueryField::Wildcard(x) => JVal::Obj(Seq::empty().push(("wildcard"@, x.jval()))),
            QueryField::IDs(x) => JVal::Obj(Seq::empty().push(("ids"@, x.jval()))),
            QueryField::Fuzzy(x) => JVal::Obj(Seq::empty().push(("fuzzy"@, x.jval()))),
            QueryField::Prefix(x) => JVal::Obj(Seq::empty().push(("prefix"@, x.jval()))),
            QueryField::Regexp(x) => JVal::Obj(Seq::empty().push(("regexp"@, x.jval()))),
            QueryField::Exists(x) => JVal::Obj(Seq::empty().push(("exists"@, x.jval()))),
            QueryField::Range(x) => JVal::Obj(Seq::empty().push(("range"@, x.jval()))),
        }
    }

    pub fn to_json(self) -> (r: Json)
        ensures
            jv(r) == self.jval(),
        decreases self, 2int,
    {
        match self {
            QueryField::Match(x) => wrap_tag("match", x.to_json()),
            QueryField::MultiMatch(x) => wrap_tag("multi_match", x.to_json()),
            QueryField::QueryString(x) => wrap_tag("query_string", x.to_json()),
            QueryField::SimpleQueryString(x) => wrap_tag("simple_query_string", x.to_json()),
            QueryField::MatchPhrase(x) => wrap_tag("match_phrase", x.to_json()),
            QueryField::MatchPhrasePrefix(x) => wrap_tag("match_phrase_prefix", x.to_json()),
            QueryField::MatchBoolPrefix(x) => wrap_tag("match_bool_prefix", x.to_json()),
            QueryField::Terms(x) => wrap_tag("terms", x.to_json()),
            QueryField::Term(x) => wrap_tag("term", x.to_json()),
            QueryField::TermsSet(x) => wrap_tag("terms_set", x.to_json()),
            QueryField::Intervals(x) => wrap_tag("intervals", x.to_json()),
            QueryField::Bool(x) => wrap_tag("bool", x.to_json()),
            QueryField::Boosting(x) => wrap_tag("boosting", x.to_json()),
            QueryField::ConstantScore(x) => wrap_tag("constant_score", x.to_json()),
            QueryField::DisMax(x) => wrap_tag("dis_max", x.to_json()),
            QueryField::Wildcard(x) => wrap_tag("wildcard", x.to_json()),
            QueryField::IDs(x) => wrap_tag("ids", x.to_json()),
            QueryField::Fuzzy(x) => wrap_tag("fuzzy", x.to_json()),
            QueryField::Prefix(x) => wrap_tag("prefix", x.to_json()),
            QueryField::Regexp(x) => wrap_tag("regexp", x.to_json()),
            QueryField::Exists(x) => wrap_tag("exists", x.to_json()),
            QueryField::Range(x) => wrap_tag("range", x.to_json()),
        }
    }
}

pub open spec fn qf_list_jval(s: Seq<QueryField>) -> Seq<JVal>
    decreases s, 3int,
{
    if s.len() == 0 {
        Seq::empty()
    } else {
        qf_list_jval(s.drop_last()).push(s.last().jval())
    }
}

pub broadcast proof fn lemma_qf_list_push(s: Seq<QueryField>, x: QueryField)
    ensures
        #[trigger] qf_list_jval(s.push(x)) == qf_list_jval(s).push(x.jval()),
{
    assert(s.push(x).drop_last() =~= s);
}

/// The value of an optional clause list, such as the `must` of a boolean
/// compound.
pub open spec fn opt_qf_list(o: Option<Vec<QueryField>>) -> Option<JVal>
    decreases o, 4int,
{
    match o {
        Some(v) => Some(JVal::Arr(qf_list_jval(v@))),
        None => None,
    }
}

/// Converts an owned clause list into an array document.
pub fn qfs_to_json(list: Vec<QueryField>) -> (r: Json)
    ensures
        jv(r) == JVal::Arr(qf_list_jval(list@)),
    decreases list, 3int,
{
    let mut out: Vec<Json> = Vec::new();
    let n = list.len();
    let ghost orig = list@;
    let mut rest = list;
    let mut k: usize = 0;
    while k < n
        invariant
            k <= n,
            orig.len() == n,
            rest@ =~= orig.subrange(k as int, n as int),
            jv_list(out@) == qf_list_jval(orig.subrange(0, k as int)),
            decreases_to!(list => orig),
        decreases n - k,
    {
        let q = rest.remove(0);
        assert(q == orig[k as int]);
        proof {
            assert(decreases_to!(orig => orig[k as int]));
        }
        let ghost gq = q;
        let j = q.to_json();
        let ghost prev = out@;
        out.push(j);
        proof {
            lemma_jv_list_push(prev, j);
            lemma_qf_list_push(orig.subrange(0, k as int), gq);
            assert(orig.subrange(0, k + 1).drop_last() =~= orig.subrange(0, k as int));
            assert(rest@ =~= orig.subrange(k + 1, n as int));
        }
        k = k + 1;
    }
    proof {
        assert(orig.subrange(0, n as int) =~= orig);
    }
    Json::Arr(out)
}

impl Match {
    /// The one conversion of this node into the query sum type.
    pub fn into_query_field(self) -> (r: QueryField)
        ensures
            r == QueryField::Match(self),
    {
        QueryField::Match(self)
    }
}

impl MultiMatch {
    /// The one conversion of this node into the query sum type.
    pub fn into_query_field(self) -> (r: QueryField)
        ensures
            r == QueryField::MultiMatch(self),
    {
        QueryField::MultiMatch(self)
    }
}

impl QueryString {
    /// The one conversion of this node into the query sum type.
    pub fn into_query_field(self) -> (r: QueryField)
        ensures
            r == QueryField::QueryString(self),
    {
        QueryField::QueryString(self)
    }
}

impl SimpleQueryString {
    /// The one conversion of this node into the query sum type.
    pub fn into_query_field(self) -> (r: QueryField)
        ensures
            r == QueryField::SimpleQueryString(self),
    {
        QueryField::SimpleQueryString(self)
    }
}

impl MatchPhrase {
    /// The one conversion of this node into the query sum type.
    pub fn into_query_field(self) -> (r: QueryField)
        ensures
            r == QueryField::MatchPhrase(self),
    {
        QueryField::MatchPhrase(self)
    }
}

impl MatchPhrasePrefix {
    /// The one conversion of this node into the query sum type.
    pub fn into_query_field(self) -> (r: QueryField)
        ensures
            r == QueryField::MatchPhrasePrefix(self),
    {
        QueryField::MatchPhrasePrefix(self)
    }
}

impl MatchBoolPrefix {
    /// The one conversion of this node into the query sum type.
    pub fn into_query_field(self) -> (r: QueryField)
        ensures
            r == QueryField::MatchBoolPrefix(self),
    {
        QueryField::MatchBoolPrefix(self)
    }
}

impl Terms {
    /// The one conversion of this node into the query sum type.
    pub fn into_query_field(self) -> (r: QueryField)
        ensures
            r == QueryField::Terms(self),
    {
        QueryField::Terms(self)
    }
}

impl Term {
    /// The one conversion of this node into the query sum type.
    pub fn into_query_field(self) -> (r: QueryField)
        ensures
            r == QueryField::Term(self),
    {
        QueryField::Term(self)
    }
}

impl TermsSet {
    /// The one conversion of this node into the query sum type.
    pub fn into_query_field(self) -> (r: QueryField)
        ensures
            r == QueryField::TermsSet(self),
    {
        QueryField::TermsSet(self)
    }
}

impl Intervals {
    /// The one conversion of this node into the query sum type.
    pub fn into_query_field(self) -> (r: QueryField)
        ensures
            r == QueryField::Intervals(self),
    {
        QueryField::Intervals(self)
    }
}

impl Bool {
    /// The one conversion of this node into the query sum type.
    pub fn into_query_field(self) -> (r: QueryField)
        ensures
            r == QueryField::Bool(self),
    {
        QueryField::Bool(self)
    }
}

impl Boosting {
    /// The one conversion of this node into the query sum type.
    pub fn into_query_field(self) -> (r: QueryField)
        ensures
            r == QueryField::Boosting(self),
    {
        QueryField::Boosting(self)
    }
}

impl ConstantScore {
    /// The one conversion of this node into the query sum type.
    pub fn into_query_field(self) -> (r: QueryField)
        ensures
            r == QueryField::ConstantScore(self),
    {
        QueryField::ConstantScore(self)
    }
}

impl DisMax {
    /// The one conversion of this node into the query sum type.
    pub fn into_query_field(self) -> (r: QueryField)
        ensures
            r == QueryField::DisMax(self),
    {
        QueryField::DisMax(self)
    }
}

impl Wildcard {
    /// The one conversion of this node into the query sum type.
    pub fn into_query_field(self) -> (r: QueryField)
        ensures
            r == QueryField::Wildcard(self),
    {
        QueryField::Wildcard(self)
    }
}

impl IDs {
    /// The one conversion of this node into the query sum type.
    pub fn into_query_field(self) -> (r: QueryField)
        ensures
            r == QueryField::IDs(self),
    {
        QueryField::IDs(self)
    }
}

impl Fuzzy {
    /// The one conversion of this node into the query sum type.
    pub fn into_query_field(self) -> (r: QueryField)
        ensures
            r == QueryField::Fuzzy(self),
    {
        QueryField::Fuzzy(self)
    }
}

impl Prefix {
    /// The one conversion of this node into the query sum type.
    pub fn into_query_field(self) -> (r: QueryField)
        ensures
            r == QueryField::Prefix(self),
    {
        QueryField::Prefix(self)
    }
}

impl Regexp {
    /// The one conversion of this node into the query sum type.
    pub fn into_query_field(self) -> (r: QueryField)
        ensures
            r == QueryField::Regexp(self),
    {
        QueryField::Regexp(self)
    }
}

impl Exists {
    /// The one conversion of this node into the query sum type.
    pub fn into_query_field(self) -> (r: QueryField)
        ensures
            r == QueryField::Exists(self),
    {
        QueryField::Exists(self)
    }
}

impl Range {
    /// The one conversion of this node into the query sum type.
    pub fn into_query_field(self) -> (r: QueryField)
        ensures
            r == QueryField::Range(self),
    {
        QueryField::Range(self)
    }
}

} // verus!
