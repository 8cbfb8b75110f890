use crate::intervals::all_of::AllOfRule;
use crate::intervals::any_of::AnyOfRule;
use crate::intervals::fuzzy::FuzzyRule;
use crate::intervals::match_rule::MatchRule;
use crate::intervals::prefix::PrefixRule;
use crate::intervals::wildcard::WildcardRule;
use crate::json::{jv, jv_list, lemma_jv_list_push, wrap_tag, JVal, Json};
use vstd::prelude::*;

verus! {

/// One rule of the interval grammar, tagged with its kind on the wire.
#[derive(Debug)]
pub enum IntervalRule {
    Match(MatchRule),
    Prefix(PrefixRule),
    Wildcard(WildcardRule),
    Fuzzy(FuzzyRule),
    AllOf(AllOfRule),
    AnyOf(AnyOfRule),
}

impl IntervalRule {
    pub open spec fn jval(self) -> JVal
        decreases self, 2int,
    {
        match self {
            IntervalRule::Match(x) => JVal::Obj(Seq::empty().push(("match"@, x.jval()))),
            IntervalRule::Prefix(x) => JVal::Obj(Seq::empty().push(("prefix"@, x.jval()))),
            IntervalRule::Wildcard(x) => JVal::Obj(Seq::empty().push(("wildcard"@, x.jval()))),
            IntervalRule::Fuzzy(x) => JVal::Obj(Seq::empty().push(("fuzzy"@, x.jval()))),
            IntervalRule::AllOf(x) => JVal::Obj(Seq::empty().push(("all_of"@, x.jval()))),
            IntervalRule::AnyOf(x) => JVal::Obj(Seq::empty().push(("any_of"@, x.jval()))),
        }
    }

    pub fn to_json(self) -> (r: Json)
        ensures
            jv(r) == self.jval(),
        decreases self,
    {
        match self {
            IntervalRule::Match(x) => wrap_tag("match", x.to_json()),
            IntervalRule::Prefix(x) => wrap_tag("prefix", x.to_json()),
            IntervalRule::Wildcard(x) => wrap_tag("wildcard", x.to_json()),
            IntervalRule::Fuzzy(x) => wrap_tag("fuzzy", x.to_json()),
            IntervalRule::AllOf(x) => wrap_tag("all_of", x.to_json()),
            IntervalRule::AnyOf(x) => wrap_tag("any_of", x.to_json()),
        }
    }
}

impl MatchRule {
    /// The one conversion of this rule into the rule sum type.
    pub fn into_interval_rule(self) -> (r: IntervalRule)
        ensures
            r == IntervalRule::Match(self),
    {
        IntervalRule::Match(self)
    }
}

impl PrefixRule {
    /// The one conversion of this rule into the rule sum type.
    pub fn into_interval_rule(self) -> (r: IntervalRule)
        ensures
            r == IntervalRule::Prefix(self),
    {
        IntervalRule::Prefix(self)
    }
}

impl WildcardRule {
    /// The one conversion of this rule into the rule sum type.
    pub fn into_interval_rule(self) -> (r: IntervalRule)
        ensures
            r == IntervalRule::Wildcard(self),
    {
        IntervalRule::Wildcard(self)
    }
}

impl FuzzyRule {
    /// The one conversion of this rule into the rule sum type.
    pub fn into_interval_rule(self) -> (r: IntervalRule)
        ensures
            r == IntervalRule::Fuzzy(self),
    {
        IntervalRule::Fuzzy(self)
    }
}

impl AllOfRule {
    /// The one conversion of this rule into the rule sum type.
    pub fn into_interval_rule(self) -> (r: IntervalRule)
        ensures
            r == IntervalRule::AllOf(self),
    {
        IntervalRule::AllOf(self)
    }
}

impl AnyOfRule {
    /// The one conversion of this rule into the rule sum type.
    pub fn into_interval_rule(self) -> (r: IntervalRule)
        ensures
            r == IntervalRule::AnyOf(self),
    {
        IntervalRule::AnyOf(self)
    }
}

pub open spec fn rule_list_jval(s: Seq<IntervalRule>) -> Seq<JVal>
    decreases s, 3int,
{
    if s.len() == 0 {
        Seq::empty()
    } else {
        rule_list_jval(s.drop_last()).push(s.last().jval())
    }
}

pub broadcast proof fn lemma_rule_list_push(s: Seq<IntervalRule>, x: IntervalRule)
    ensures
        #[trigger] rule_list_jval(s.push(x)) == rule_list_jval(s).push(x.jval()),
{
    assert(s.push(x).drop_last() =~= s);
}

/// Converts an owned rule list into an array document.
pub fn rules_to_json(list: Vec<IntervalRule>) -> (r: Json)
    ensures
        jv(r) == JVal::Arr(rule_list_jval(list@)),
    decreases list,
{
    let mut out: Vec<Json> = Vec::new();
    let n = list.len();
    let ghost orig = list@;
    let mut rest = list;
    let mut k: usize = 0;
    while k < n
        invariant
            k <= n,
            orig.len() == n,
            rest@ =~= orig.subrange(k as int, n as int),
            jv_list(out@) == rule_list_jval(orig.subrange(0, k as int)),
            decreases_to!(list => orig),
        decreases n - k,
    {
        let q = rest.remove(0);
        assert(q == orig[k as int]);
        proof {
            assert(decreases_to!(orig => orig[k as int]));
        }
        let ghost gq = q;
        let j = q.to_json();
        let ghost prev = out@;
        out.push(j);
        proof {
            lemma_jv_list_push(prev, j);
            lemma_rule_list_push(orig.subrange(0, k as int), gq);
            assert(orig.subrange(0, k + 1).drop_last() =~= orig.subrange(0, k as int));
            assert(rest@ =~= orig.subrange(k + 1, n as int));
        }
        k = k + 1;
    }
    proof {
        assert(orig.subrange(0, n as int) =~= orig);
    }
    Json::Arr(out)
}

} // verus!
