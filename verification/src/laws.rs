//! The general properties the library keeps, stated over the ghost model
//! and proved for every node type: a field-keyed node serializes as a
//! single-entry object under its field name, an unset optional attribute
//! never reaches the wire, builder calls on distinct attributes commute,
//! and nesting preserves each node's rendered shape.

use crate::compound_query::boolean::Bool;
use crate::compound_query::boosting::Boosting;
use crate::compound_query::constant_score::ConstantScore;
use crate::compound_query::disjunction_max::DisMax;
use crate::full_text::match_boolean_prefix::{MatchBoolPrefix, MatchBoolPrefixValue};
use crate::full_text::match_phrase::{MatchPhrase, MatchPhraseValues};
use crate::full_text::match_phrase_prefix::{MatchPhrasePrefix, MatchPhrasePrefixValues};
use crate::full_text::match_query::{Match, MatchValues};
use crate::full_text::multi_match::MultiMatch;
use crate::full_text::query_string::QueryString;
use crate::full_text::simple_query_string::SimpleQueryString;
use crate::intervals::all_of::AllOfRule;
use crate::intervals::any_of::AnyOfRule;
use crate::intervals::filter::FilterRule;
use crate::intervals::fuzzy::FuzzyRule;
use crate::intervals::interval::Intervals;
use crate::intervals::interval_rule::{IntervalRule, rule_list_jval};
use crate::intervals::match_rule::MatchRule;
use crate::intervals::prefix::PrefixRule;
use crate::intervals::wildcard::WildcardRule;
use crate::json::{field_key, has_key, lemma_present_omits_at, present, Decimal, JVal, Json};
use crate::misc::fuzziness::Fuzziness;
use crate::misc::operator::Operator;
use crate::misc::query_field::{qf_list_jval, QueryField};
use crate::misc::query_type::Type;
use crate::misc::regexp_flag::RegexpFlag;
use crate::misc::relation::Relation;
use crate::misc::rewrite::Rewrite;
use crate::misc::script::Script;
use crate::misc::zero_terms_query::ZeroTermsQuery;
use crate::model::Query;
use crate::query::aggs::AggregateTermsValues;
use crate::term::exists_query::Exists;
use crate::term::fuzzy::{Fuzzy, FuzzyValue};
use crate::term::ids::IDs;
use crate::term::prefix::{Prefix, PrefixValue};
use crate::term::range::{Range, RangeValue};
use crate::term::regexp::{Regexp, RegexpValue};
use crate::term::term::{Term, TermInner};
use crate::term::term_type::TermType;
use crate::term::terms_set::{TermsSet, TermsSetValue};
use crate::term::wildcard::{Wildcard, WildcardValue};
use vstd::prelude::*;

verus! {

broadcast use crate::json::lemma_present_push;

/// However this node was built, it serializes as a single-entry object
/// whose only key is its field name.
pub proof fn lemma_match_query_single_field_key(x: Match)
    ensures
        x.jval() matches JVal::Obj(es) && es.len() == 1 && es[0].0 == field_key(x.field),
{
}

/// Every optional attribute left unset on this node stays out of the
/// emitted object.
pub proof fn lemma_match_query_omits_unset(x: Match)
    ensures
        x.value.fuzziness is None ==> !has_key(present(x.slots()), "fuzziness"@),
        x.value.fuzzy_transpositions is None ==> !has_key(present(x.slots()), "fuzzy_transpositions"@),
        x.value.operator is None ==> !has_key(present(x.slots()), "operator"@),
        x.value.minimum_should_match is None ==> !has_key(present(x.slots()), "minimum_should_match"@),
        x.value.analyzer is None ==> !has_key(present(x.slots()), "analyzer"@),
        x.value.zero_terms_query is None ==> !has_key(present(x.slots()), "zero_terms_query"@),
        x.value.lenient is None ==> !has_key(present(x.slots()), "lenient"@),
        x.value.prefix_length is None ==> !has_key(present(x.slots()), "prefix_length"@),
        x.value.max_expansions is None ==> !has_key(present(x.slots()), "max_expansions"@),
        x.value.boost is None ==> !has_key(present(x.slots()), "boost"@),
{
    reveal_strlit("analyzer");
    reveal_strlit("boost");
    reveal_strlit("fuzziness");
    reveal_strlit("fuzzy_transpositions");
    reveal_strlit("lenient");
    reveal_strlit("max_expansions");
    reveal_strlit("minimum_should_match");
    reveal_strlit("operator");
    reveal_strlit("prefix_length");
    reveal_strlit("query");
    reveal_strlit("zero_terms_query");
    let s = x.slots();
    assert(s.len() == 11);
    assert(s[0].0 == "query"@);
    assert(s[1].0 == "fuzziness"@);
    assert(s[2].0 == "fuzzy_transpositions"@);
    assert(s[3].0 == "operator"@);
    assert(s[4].0 == "minimum_should_match"@);
    assert(s[5].0 == "analyzer"@);
    assert(s[6].0 == "zero_terms_query"@);
    assert(s[7].0 == "lenient"@);
    assert(s[8].0 == "prefix_length"@);
    assert(s[9].0 == "max_expansions"@);
    assert(s[10].0 == "boost"@);
    assert("analyzer"@.len() == 8);
    assert("boost"@.len() == 5);
    assert("fuzziness"@.len() == 9);
    assert("fuzzy_transpositions"@.len() == 20);
    assert("lenient"@.len() == 7);
    assert("max_expansions"@.len() == 14);
    assert("minimum_should_match"@.len() == 20);
    assert("operator"@.len() == 8);
    assert("prefix_length"@.len() == 13);
    assert("query"@.len() == 5);
    assert("zero_terms_query"@.len() == 16);
    assert("analyzer"@[0] == 'a');
    assert("boost"@[0] == 'b');
    assert("fuzzy_transpositions"@[0] == 'f');
    assert("minimum_should_match"@[0] == 'm');
    assert("operator"@[0] == 'o');
    assert("query"@[0] == 'q');
    if x.value.fuzziness is None {
        lemma_present_omits_at(s, 1);
    }
    if x.value.fuzzy_transpositions is None {
        lemma_present_omits_at(s, 2);
    }
    if x.value.operator is None {
        lemma_present_omits_at(s, 3);
    }
    if x.value.minimum_should_match is None {
        lemma_present_omits_at(s, 4);
    }
    if x.value.analyzer is None {
        lemma_present_omits_at(s, 5);
    }
    if x.value.zero_terms_query is None {
        lemma_present_omits_at(s, 6);
    }
    if x.value.lenient is None {
        lemma_present_omits_at(s, 7);
    }
    if x.value.prefix_length is None {
        lemma_present_omits_at(s, 8);
    }
    if x.value.max_expansions is None {
        lemma_present_omits_at(s, 9);
    }
    if x.value.boost is None {
        lemma_present_omits_at(s, 10);
    }
}

/// Every optional attribute left unset on this node stays out of the
/// emitted object.
pub proof fn lemma_script_omits_unset(x: Script)
    ensures
        x.lang is None ==> !has_key(present(x.slots()), "lang"@),
{
    reveal_strlit("lang");
    reveal_strlit("source");
    let s = x.slots();
    assert(s.len() == 2);
    assert(s[0].0 == "source"@);
    assert(s[1].0 == "lang"@);
    assert("lang"@.len() == 4);
    assert("source"@.len() == 6);
    if x.lang is None {
        lemma_present_omits_at(s, 1);
    }
}

/// However this node was built, it serializes as a single-entry object
/// whose only key is its field name.
pub proof fn lemma_term_single_field_key(x: Term)
    ensures
        x.jval() matches JVal::Obj(es) && es.len() == 1 && es[0].0 == x.field@,
{
}

/// Every optional attribute left unset on this node stays out of the
/// emitted object.
pub proof fn lemma_term_omits_unset(x: Term)
    ensures
        x.value.boost is None ==> !has_key(present(x.slots()), "boost"@),
        x.value.case_insensitive is None ==> !has_key(present(x.slots()), "case_insensitive"@),
{
    reveal_strlit("boost");
    reveal_strlit("case_insensitive");
    reveal_strlit("value");
    let s = x.slots();
    assert(s.len() == 3);
    assert(s[0].0 == "value"@);
    assert(s[1].0 == "boost"@);
    assert(s[2].0 == "case_insensitive"@);
    assert("boost"@.len() == 5);
    assert("case_insensitive"@.len() == 16);
    assert("value"@.len() == 5);
    assert("boost"@[0] == 'b');
    assert("value"@[0] == 'v');
    if x.value.boost is None {
        lemma_present_omits_at(s, 1);
    }
    if x.value.case_insensitive is None {
        lemma_present_omits_at(s, 2);
    }
}

/// Every optional attribute left unset on this node stays out of the
/// emitted object.
pub proof fn lemma_exists_omits_unset(x: Exists)
    ensures
        x.boost is None ==> !has_key(present(x.slots()), "boost"@),
{
    reveal_strlit("boost");
    reveal_strlit("field");
    let s = x.slots();
    assert(s.len() == 2);
    assert(s[0].0 == "field"@);
    assert(s[1].0 == "boost"@);
    assert("boost"@.len() == 5);
    assert("field"@.len() == 5);
    assert("boost"@[0] == 'b');
    assert("field"@[0] == 'f');
    if x.boost is None {
        lemma_present_omits_at(s, 1);
    }
}

/// Every optional attribute left unset on this node stays out of the
/// emitted object.
pub proof fn lemma_ids_omits_unset(x: IDs)
    ensures
        x.boost is None ==> !has_key(present(x.slots()), "boost"@),
{
    reveal_strlit("boost");
    reveal_strlit("values");
    let s = x.slots();
    assert(s.len() == 2);
    assert(s[0].0 == "values"@);
    assert(s[1].0 == "boost"@);
    assert("boost"@.len() == 5);
    assert("values"@.len() == 6);
    if x.boost is None {
        lemma_present_omits_at(s, 1);
    }
}

/// However this node was built, it serializes as a single-entry object
/// whose only key is its field name.
pub proof fn lemma_wildcard_single_field_key(x: Wildcard)
    ensures
        x.jval() matches JVal::Obj(es) && es.len() == 1 && es[0].0 == field_key(x.field),
{
}

/// Every optional attribute left unset on this node stays out of the
/// emitted object.
pub proof fn lemma_wildcard_omits_unset(x: Wildcard)
    ensures
        x.value.boost is None ==> !has_key(present(x.slots()), "boost"@),
        x.value.case_insensitive is None ==> !has_key(present(x.slots()), "case_insensitive"@),
        x.value.rewrite is None ==> !has_key(present(x.slots()), "rewrite"@),
{
    reveal_strlit("boost");
    reveal_strlit("case_insensitive");
    reveal_strlit("rewrite");
    reveal_strlit("value");
    let s = x.slots();
    assert(s.len() == 4);
    assert(s[0].0 == "value"@);
    assert(s[1].0 == "boost"@);
    assert(s[2].0 == "case_insensitive"@);
    assert(s[3].0 == "rewrite"@);
    assert("boost"@.len() == 5);
    assert("case_insensitive"@.len() == 16);
    assert("rewrite"@.len() == 7);
    assert("value"@.len() == 5);
    assert("boost"@[0] == 'b');
    assert("value"@[0] == 'v');
    if x.value.boost is None {
        lemma_present_omits_at(s, 1);
    }
    if x.value.case_insensitive is None {
        lemma_present_omits_at(s, 2);
    }
    if x.value.rewrite is None {
        lemma_present_omits_at(s, 3);
    }
}

/// However this node was built, it serializes as a single-entry object
/// whose only key is its field name.
pub proof fn lemma_prefix_single_field_key(x: Prefix)
    ensures
        x.jval() matches JVal::Obj(es) && es.len() == 1 && es[0].0 == field_key(x.field),
{
}

/// Every optional attribute left unset on this node stays out of the
/// emitted object.
pub proof fn lemma_prefix_omits_unset(x: Prefix)
    ensures
        x.value.boost is None ==> !has_key(present(x.slots()), "boost"@),
        x.value.case_insensitive is None ==> !has_key(present(x.slots()), "case_insensitive"@),
        x.value.rewrite is None ==> !has_key(present(x.slots()), "rewrite"@),
{
    reveal_strlit("boost");
    reveal_strlit("case_insensitive");
    reveal_strlit("rewrite");
    reveal_strlit("value");
    let s = x.slots();
    assert(s.len() == 4);
    assert(s[0].0 == "value"@);
    assert(s[1].0 == "boost"@);
    assert(s[2].0 == "case_insensitive"@);
    assert(s[3].0 == "rewrite"@);
    assert("boost"@.len() == 5);
    assert("case_insensitive"@.len() == 16);
    assert("rewrite"@.len() == 7);
    assert("value"@.len() == 5);
    assert("boost"@[0] == 'b');
    assert("value"@[0] == 'v');
    if x.value.boost is None {
        lemma_present_omits_at(s, 1);
    }
    if x.value.case_insensitive is None {
        lemma_present_omits_at(s, 2);
    }
    if x.value.rewrite is None {
        lemma_present_omits_at(s, 3);
    }
}

/// However this node was built, it serializes as a single-entry object
/// whose only key is its field name.
pub proof fn lemma_regexp_single_field_key(x: Regexp)
    ensures
        x.jval() matches JVal::Obj(es) && es.len() == 1 && es[0].0 == field_key(x.field),
{
}

/// Every optional attribute left unset on this node stays out of the
/// emitted object.
pub proof fn lemma_regexp_omits_unset(x: Regexp)
    ensures
        x.value.boost is None ==> !has_key(present(x.slots()), "boost"@),
        x.value.case_insensitive is None ==> !has_key(present(x.slots()), "case_insensitive"@),
        x.value.flags is None ==> !has_key(present(x.slots()), "flags"@),
        x.value.max_determinized_states is None ==> !has_key(present(x.slots()), "max_determinized_states"@),
        x.value.rewrite is None ==> !has_key(present(x.slots()), "rewrite"@),
{
    reveal_strlit("boost");
    reveal_strlit("case_insensitive");
    reveal_strlit("flags");
    reveal_strlit("max_determinized_states");
    reveal_strlit("rewrite");
    reveal_strlit("value");
    let s = x.slots();
    assert(s.len() == 6);
    assert(s[0].0 == "value"@);
    assert(s[1].0 == "boost"@);
    assert(s[2].0 == "case_insensitive"@);
    assert(s[3].0 == "flags"@);
    assert(s[4].0 == "max_determinized_states"@);
    assert(s[5].0 == "rewrite"@);
    assert("boost"@.len() == 5);
    assert("case_insensitive"@.len() == 16);
    assert("flags"@.len() == 5);
    assert("max_determinized_states"@.len() == 23);
    assert("rewrite"@.len() == 7);
    assert("value"@.len() == 5);
    assert("boost"@[0] == 'b');
    assert("flags"@[0] == 'f');
    assert("value"@[0] == 'v');
    if x.value.boost is None {
        lemma_present_omits_at(s, 1);
    }
    if x.value.case_insensitive is None {
        lemma_present_omits_at(s, 2);
    }
    if x.value.flags is None {
        lemma_present_omits_at(s, 3);
    }
    if x.value.max_determinized_states is None {
        lemma_present_omits_at(s, 4);
    }
    if x.value.rewrite is None {
        lemma_present_omits_at(s, 5);
    }
}

/// However this node was built, it serializes as a single-entry object
/// whose only key is its field name.
pub proof fn lemma_fuzzy_single_field_key(x: Fuzzy)
    ensures
        x.jval() matches JVal::Obj(es) && es.len() == 1 && es[0].0 == field_key(x.field),
{
}

/// Every optional attribute left unset on this node stays out of the
/// emitted object.
pub proof fn lemma_fuzzy_omits_unset(x: Fuzzy)
    ensures
        x.value.boost is None ==> !has_key(present(x.slots()), "boost"@),
        x.value.fuzziness is None ==> !has_key(present(x.slots()), "fuzziness"@),
        x.value.max_expansions is None ==> !has_key(present(x.slots()), "max_expansions"@),
        x.value.prefix_length is None ==> !has_key(present(x.slots()), "prefix_length"@),
        x.value.rewrite is None ==> !has_key(present(x.slots()), "rewrite"@),
        x.value.transpositions is None ==> !has_key(present(x.slots()), "transpositions"@),
{
    reveal_strlit("boost");
    reveal_strlit("fuzziness");
    reveal_strlit("max_expansions");
    reveal_strlit("prefix_length");
    reveal_strlit("rewrite");
    reveal_strlit("transpositions");
    reveal_strlit("value");
    let s = x.slots();
    assert(s.len() == 7);
    assert(s[0].0 == "value"@);
    assert(s[1].0 == "boost"@);
    assert(s[2].0 == "fuzziness"@);
    assert(s[3].0 == "max_expansions"@);
    assert(s[4].0 == "prefix_length"@);
    assert(s[5].0 == "rewrite"@);
    assert(s[6].0 == "transpositions"@);
    assert("boost"@.len() == 5);
    assert("fuzziness"@.len() == 9);
    assert("max_expansions"@.len() == 14);
    assert("prefix_length"@.len() == 13);
    assert("rewrite"@.len() == 7);
    assert("transpositions"@.len() == 14);
    assert("value"@.len() == 5);
    assert("boost"@[0] == 'b');
    assert("max_expansions"@[0] == 'm');
    assert("transpositions"@[0] == 't');
    assert("value"@[0] == 'v');
    if x.value.boost is None {
        lemma_present_omits_at(s, 1);
    }
    if x.value.fuzziness is None {
        lemma_present_omits_at(s, 2);
    }
    if x.value.max_expansions is None {
        lemma_present_omits_at(s, 3);
    }
    if x.value.prefix_length is None {
        lemma_present_omits_at(s, 4);
    }
    if x.value.rewrite is None {
        lemma_present_omits_at(s, 5);
    }
    if x.value.transpositions is None {
        lemma_present_omits_at(s, 6);
    }
}

/// However this node was built, it serializes as a single-entry object
/// whose only key is its field name.
pub proof fn lemma_range_single_field_key(x: Range)
    ensures
        x.jval() matches JVal::Obj(es) && es.len() == 1 && es[0].0 == field_key(x.field),
{
}

/// Every optional attribute left unset on this node stays out of the
/// emitted object.
pub proof fn lemma_range_omits_unset(x: Range)
    ensures
        x.value.gt is None ==> !has_key(present(x.slots()), "gt"@),
        x.value.gte is None ==> !has_key(present(x.slots()), "gte"@),
        x.value.lte is None ==> !has_key(present(x.slots()), "lte"@),
        x.value.lt is None ==> !has_key(present(x.slots()), "lt"@),
        x.value.format is None ==> !has_key(present(x.slots()), "format"@),
        x.value.relation is None ==> !has_key(present(x.slots()), "relation"@),
        x.value.boost is None ==> !has_key(present(x.slots()), "boost"@),
        x.value.time_zone is None ==> !has_key(present(x.slots()), "time_zone"@),
{
    reveal_strlit("boost");
    reveal_strlit("format");
    reveal_strlit("gt");
    reveal_strlit("gte");
    reveal_strlit("lt");
    reveal_strlit("lte");
    reveal_strlit("relation");
    reveal_strlit("time_zone");
    let s = x.slots();
    assert(s.len() == 8);
    assert(s[0].0 == "gt"@);
    assert(s[1].0 == "gte"@);
    assert(s[2].0 == "lte"@);
    assert(s[3].0 == "lt"@);
    assert(s[4].0 == "format"@);
    assert(s[5].0 == "relation"@);
    assert(s[6].0 == "boost"@);
    assert(s[7].0 == "time_zone"@);
    assert("boost"@.len() == 5);
    assert("format"@.len() == 6);
    assert("gt"@.len() == 2);
    assert("gte"@.len() == 3);
    assert("lt"@.len() == 2);
    assert("lte"@.len() == 3);
    assert("relation"@.len() == 8);
    assert("time_zone"@.len() == 9);
    assert("gt"@[0] == 'g');
    assert("gte"@[0] == 'g');
    assert("lt"@[0] == 'l');
    assert("lte"@[0] == 'l');
    if x.value.gt is None {
        lemma_present_omits_at(s, 0);
    }
    if x.value.gte is None {
        lemma_present_omits_at(s, 1);
    }
    if x.value.lte is None {
        lemma_present_omits_at(s, 2);
    }
    if x.value.lt is None {
        lemma_present_omits_at(s, 3);
    }
    if x.value.format is None {
        lemma_present_omits_at(s, 4);
    }
    if x.value.relation is None {
        lemma_present_omits_at(s, 5);
    }
    if x.value.boost is None {
        lemma_present_omits_at(s, 6);
    }
    if x.value.time_zone is None {
        lemma_present_omits_at(s, 7);
    }
}

/// However this node was built, it serializes as a single-entry object
/// whose only key is its field name.
pub proof fn lemma_terms_set_single_field_key(x: TermsSet)
    ensures
        x.jval() matches JVal::Obj(es) && es.len() == 1 && es[0].0 == field_key(x.field),
{
}

/// Every optional attribute left unset on this node stays out of the
/// emitted object.
pub proof fn lemma_terms_set_omits_unset(x: TermsSet)
    ensures
        x.value.minimum_should_match_field is None ==> !has_key(present(x.slots()), "minimum_should_match_field"@),
        x.value.minimum_should_match_script is None ==> !has_key(present(x.slots()), "minimum_should_match_script"@),
        x.value.boost is None ==> !has_key(present(x.slots()), "boost"@),
{
    reveal_strlit("boost");
    reveal_strlit("minimum_should_match_field");
    reveal_strlit("minimum_should_match_script");
    reveal_strlit("terms");
    let s = x.slots();
    assert(s.len() == 4);
    assert(s[0].0 == "terms"@);
    assert(s[1].0 == "minimum_should_match_field"@);
    assert(s[2].0 == "minimum_should_match_script"@);
    assert(s[3].0 == "boost"@);
    assert("boost"@.len() == 5);
    assert("minimum_should_match_field"@.len() == 26);
    assert("minimum_should_match_script"@.len() == 27);
    assert("terms"@.len() == 5);
    assert("boost"@[0] == 'b');
    assert("terms"@[0] == 't');
    if x.value.minimum_should_match_field is None {
        lemma_present_omits_at(s, 1);
    }
    if x.value.minimum_should_match_script is None {
        lemma_present_omits_at(s, 2);
    }
    if x.value.boost is None {
        lemma_present_omits_at(s, 3);
    }
}

/// However this node was built, it serializes as a single-entry object
/// whose only key is its field name.
pub proof fn lemma_match_phrase_single_field_key(x: MatchPhrase)
    ensures
        x.jval() matches JVal::Obj(es) && es.len() == 1 && es[0].0 == field_key(x.field),
{
}

/// Every optional attribute left unset on this node stays out of the
/// emitted object.
pub proof fn lemma_match_phrase_omits_unset(x: MatchPhrase)
    ensures
        x.value.slop is None ==> !has_key(present(x.slots()), "slop"@),
        x.value.analyzer is None ==> !has_key(present(x.slots()), "analyzer"@),
        x.value.zero_terms_query is None ==> !has_key(present(x.slots()), "zero_terms_query"@),
{
    reveal_strlit("analyzer");
    reveal_strlit("query");
    reveal_strlit("slop");
    reveal_strlit("zero_terms_query");
    let s = x.slots();
    assert(s.len() == 4);
    assert(s[0].0 == "query"@);
    assert(s[1].0 == "slop"@);
    assert(s[2].0 == "analyzer"@);
    assert(s[3].0 == "zero_terms_query"@);
    assert("analyzer"@.len() == 8);
    assert("query"@.len() == 5);
    assert("slop"@.len() == 4);
    assert("zero_terms_query"@.len() == 16);
    if x.value.slop is None {
        lemma_present_omits_at(s, 1);
    }
    if x.value.analyzer is None {
        lemma_present_omits_at(s, 2);
    }
    if x.value.zero_terms_query is None {
        lemma_present_omits_at(s, 3);
    }
}

/// However this node was built, it serializes as a single-entry object
/// whose only key is its field name.
pub proof fn lemma_match_phrase_prefix_single_field_key(x: MatchPhrasePrefix)
    ensures
        x.jval() matches JVal::Obj(es) && es.len() == 1 && es[0].0 == field_key(x.field),
{
}

/// Every optional attribute left unset on this node stays out of the
/// emitted object.
pub proof fn lemma_match_phrase_prefix_omits_unset(x: MatchPhrasePrefix)
    ensures
        x.value.slop is None ==> !has_key(present(x.slots()), "slop"@),
        x.value.analyzer is None ==> !has_key(present(x.slots()), "analyzer"@),
        x.value.max_expansions is None ==> !has_key(present(x.slots()), "max_expansions"@),
{
    reveal_strlit("analyzer");
    reveal_strlit("max_expansions");
    reveal_strlit("query");
    reveal_strlit("slop");
    let s = x.slots();
    assert(s.len() == 4);
    assert(s[0].0 == "query"@);
    assert(s[1].0 == "slop"@);
    assert(s[2].0 == "analyzer"@);
    assert(s[3].0 == "max_expansions"@);
    assert("analyzer"@.len() == 8);
    assert("max_expansions"@.len() == 14);
    assert("query"@.len() == 5);
    assert("slop"@.len() == 4);
    if x.value.slop is None {
        lemma_present_omits_at(s, 1);
    }
    if x.value.analyzer is None {
        lemma_present_omits_at(s, 2);
    }
    if x.value.max_expansions is None {
        lemma_present_omits_at(s, 3);
    }
}

/// However this node was built, it serializes as a single-entry object
/// whose only key is its field name.
pub proof fn lemma_match_bool_prefix_single_field_key(x: MatchBoolPrefix)
    ensures
        x.jval() matches JVal::Obj(es) && es.len() == 1 && es[0].0 == field_key(x.field),
{
}

/// Every optional attribute left unset on this node stays out of the
/// emitted object.
pub proof fn lemma_match_bool_prefix_omits_unset(x: MatchBoolPrefix)
    ensures
        x.value.analyzer is None ==> !has_key(present(x.slots()), "analyzer"@),
        x.value.fuzzy_rewrite is None ==> !has_key(present(x.slots()), "fuzzy_rewrite"@),
        x.value.fuzziness is None ==> !has_key(present(x.slots()), "fuzziness"@),
        x.value.fuzzy_transpositions is None ==> !has_key(present(x.slots()), "fuzzy_transpositions"@),
        x.value.max_expansions is None ==> !has_key(present(x.slots()), "max_expansions"@),
        x.value.minimum_should_match is None ==> !has_key(present(x.slots()), "minimum_should_match"@),
        x.value.operator is None ==> !has_key(present(x.slots()), "operator"@),
        x.value.prefix_length is None ==> !has_key(present(x.slots()), "prefix_length"@),
{
    reveal_strlit("analyzer");
    reveal_strlit("fuzziness");
    reveal_strlit("fuzzy_rewrite");
    reveal_strlit("fuzzy_transpositions");
    reveal_strlit("max_expansions");
    reveal_strlit("minimum_should_match");
    reveal_strlit("operator");
    reveal_strlit("prefix_length");
    reveal_strlit("query");
    let s = x.slots();
    assert(s.len() == 9);
    assert(s[0].0 == "query"@);
    assert(s[1].0 == "analyzer"@);
    assert(s[2].0 == "fuzzy_rewrite"@);
    assert(s[3].0 == "fuzziness"@);
    assert(s[4].0 == "fuzzy_transpositions"@);
    assert(s[5].0 == "max_expansions"@);
    assert(s[6].0 == "minimum_should_match"@);
    assert(s[7].0 == "operator"@);
    assert(s[8].0 == "prefix_length"@);
    assert("analyzer"@.len() == 8);
    assert("fuzziness"@.len() == 9);
    assert("fuzzy_rewrite"@.len() == 13);
    assert("fuzzy_transpositions"@.len() == 20);
    assert("max_expansions"@.len() == 14);
    assert("minimum_should_match"@.len() == 20);
    assert("operator"@.len() == 8);
    assert("prefix_length"@.len() == 13);
    assert("query"@.len() == 5);
    assert("analyzer"@[0] == 'a');
    assert("fuzzy_rewrite"@[0] == 'f');
    assert("fuzzy_transpositions"@[0] == 'f');
    assert("minimum_should_match"@[0] == 'm');
    assert("operator"@[0] == 'o');
    assert("prefix_length"@[0] == 'p');
    if x.value.analyzer is None {
        lemma_present_omits_at(s, 1);
    }
    if x.value.fuzzy_rewrite is None {
        lemma_present_omits_at(s, 2);
    }
    if x.value.fuzziness is None {
        lemma_present_omits_at(s, 3);
    }
    if x.value.fuzzy_transpositions is None {
        lemma_present_omits_at(s, 4);
    }
    if x.value.max_expansions is None {
        lemma_present_omits_at(s, 5);
    }
    if x.value.minimum_should_match is None {
        lemma_present_omits_at(s, 6);
    }
    if x.value.operator is None {
        lemma_present_omits_at(s, 7);
    }
    if x.value.prefix_length is None {
        lemma_present_omits_at(s, 8);
    }
}

/// Every optional attribute left unset on this node stays out of the
/// emitted object.
pub proof fn lemma_multi_match_omits_unset(x: MultiMatch)
    ensures
        x.query_type is None ==> !has_key(present(x.slots()), "type"@),
        x.operator is None ==> !has_key(present(x.slots()), "operator"@),
        x.minimum_should_match is None ==> !has_key(present(x.slots()), "minimum_should_match"@),
        x.tie_breaker is None ==> !has_key(present(x.slots()), "tie_breaker"@),
        x.analyzer is None ==> !has_key(present(x.slots()), "analyzer"@),
        x.boost is None ==> !has_key(present(x.slots()), "boost"@),
        x.fuzziness is None ==> !has_key(present(x.slots()), "fuzziness"@),
        x.fuzzy_transpositions is None ==> !has_key(present(x.slots()), "fuzzy_transpositions"@),
        x.lenient is None ==> !has_key(present(x.slots()), "lenient"@),
        x.prefix_length is None ==> !has_key(present(x.slots()), "prefix_length"@),
        x.max_expansions is None ==> !has_key(present(x.slots()), "max_expansions"@),
        x.auto_generate_synonyms_phrase_query is None ==> !has_key(present(x.slots()), "auto_generate_synonyms_phrase_query"@),
        x.zero_terms_query is None ==> !has_key(present(x.slots()), "zero_terms_query"@),
{
    reveal_strlit("analyzer");
    reveal_strlit("auto_generate_synonyms_phrase_query");
    reveal_strlit("boost");
    reveal_strlit("fields");
    reveal_strlit("fuzziness");
    reveal_strlit("fuzzy_transpositions");
    reveal_strlit("lenient");
    reveal_strlit("max_expansions");
    reveal_strlit("minimum_should_match");
    reveal_strlit("operator");
    reveal_strlit("prefix_length");
    reveal_strlit("query");
    reveal_strlit("tie_breaker");
    reveal_strlit("type");
    reveal_strlit("zero_terms_query");
    let s = x.slots();
    assert(s.len() == 15);
    assert(s[0].0 == "query"@);
    assert(s[1].0 == "fields"@);
    assert(s[2].0 == "type"@);
    assert(s[3].0 == "operator"@);
    assert(s[4].0 == "minimum_should_match"@);
    assert(s[5].0 == "tie_breaker"@);
    assert(s[6].0 == "analyzer"@);
    assert(s[7].0 == "boost"@);
    assert(s[8].0 == "fuzziness"@);
    assert(s[9].0 == "fuzzy_transpositions"@);
    assert(s[10].0 == "lenient"@);
    assert(s[11].0 == "prefix_length"@);
    assert(s[12].0 == "max_expansions"@);
    assert(s[13].0 == "auto_generate_synonyms_phrase_query"@);
    assert(s[14].0 == "zero_terms_query"@);
    assert("analyzer"@.len() == 8);
    assert("auto_generate_synonyms_phrase_query"@.len() == 35);
    assert("boost"@.len() == 5);
    assert("fields"@.len() == 6);
    assert("fuzziness"@.len() == 9);
    assert("fuzzy_transpositions"@.len() == 20);
    assert("lenient"@.len() == 7);
    assert("max_expansions"@.len() == 14);
    assert("minimum_should_match"@.len() == 20);
    assert("operator"@.len() == 8);
    assert("prefix_length"@.len() == 13);
    assert("query"@.len() == 5);
    assert("tie_breaker"@.len() == 11);
    assert("type"@.len() == 4);
    assert("zero_terms_query"@.len() == 16);
    assert("analyzer"@[0] == 'a');
    assert("boost"@[0] == 'b');
    assert("fuzzy_transpositions"@[0] == 'f');
    assert("minimum_should_match"@[0] == 'm');
    assert("operator"@[0] == 'o');
    assert("query"@[0] == 'q');
    if x.query_type is None {
        lemma_present_omits_at(s, 2);
    }
    if x.operator is None {
        lemma_present_omits_at(s, 3);
    }
    if x.minimum_should_match is None {
        lemma_present_omits_at(s, 4);
    }
    if x.tie_breaker is None {
        lemma_present_omits_at(s, 5);
    }
    if x.analyzer is None {
        lemma_present_omits_at(s, 6);
    }
    if x.boost is None {
        lemma_present_omits_at(s, 7);
    }
    if x.fuzziness is None {
        lemma_present_omits_at(s, 8);
    }
    if x.fuzzy_transpositions is None {
        lemma_present_omits_at(s, 9);
    }
    if x.lenient is None {
        lemma_present_omits_at(s, 10);
    }
    if x.prefix_length is None {
        lemma_present_omits_at(s, 11);
    }
    if x.max_expansions is None {
        lemma_present_omits_at(s, 12);
    }
    if x.auto_generate_synonyms_phrase_query is None {
        lemma_present_omits_at(s, 13);
    }
    if x.zero_terms_query is None {
        lemma_present_omits_at(s, 14);
    }
}

/// Every optional attribute left unset on this node stays out of the
/// emitted object.
pub proof fn lemma_query_string_omits_unset(x: QueryString)
    ensures
        x.default_field is None ==> !has_key(present(x.slots()), "default_field"@),
        x.query_type is None ==> !has_key(present(x.slots()), "type"@),
        x.fuzziness is None ==> !has_key(present(x.slots()), "fuzziness"@),
        x.fuzzy_transpositions is None ==> !has_key(present(x.slots()), "fuzzy_transpositions"@),
        x.fuzzy_max_expansions is None ==> !has_key(present(x.slots()), "fuzzy_max_expansions"@),
        x.fuzzy_prefix_length is None ==> !has_key(present(x.slots()), "fuzzy_prefix_length"@),
        x.minimum_should_match is None ==> !has_key(present(x.slots()), "minimum_should_match"@),
        x.default_operator is None ==> !has_key(present(x.slots()), "default_operator"@),
        x.analyzer is None ==> !has_key(present(x.slots()), "analyzer"@),
        x.lenient is None ==> !has_key(present(x.slots()), "lenient"@),
        x.boost is None ==> !has_key(present(x.slots()), "boost"@),
        x.allow_leading_wildcard is None ==> !has_key(present(x.slots()), "allow_leading_wildcard"@),
        x.enable_position_increments is None ==> !has_key(present(x.slots()), "enable_position_increments"@),
        x.phrase_slop is None ==> !has_key(present(x.slots()), "phrase_slop"@),
        x.max_determinized_states is None ==> !has_key(present(x.slots()), "max_determinized_states"@),
        x.time_zone is None ==> !has_key(present(x.slots()), "time_zone"@),
        x.quote_field_suffix is None ==> !has_key(present(x.slots()), "quote_field_suffix"@),
        x.quote_analyzer is None ==> !has_key(present(x.slots()), "quote_analyzer"@),
        x.analyze_wildcard is None ==> !has_key(present(x.slots()), "analyze_wildcard"@),
        x.auto_generate_synonyms_phrase_query is None ==> !has_key(present(x.slots()), "auto_generate_synonyms_phrase_query"@),
{
    reveal_strlit("allow_leading_wildcard");
    reveal_strlit("analyze_wildcard");
    reveal_strlit("analyzer");
    reveal_strlit("auto_generate_synonyms_phrase_query");
    reveal_strlit("boost");
    reveal_strlit("default_field");
    reveal_strlit("default_operator");
    reveal_strlit("enable_position_increments");
    reveal_strlit("fuzziness");
    reveal_strlit("fuzzy_max_expansions");
    reveal_strlit("fuzzy_prefix_length");
    reveal_strlit("fuzzy_transpositions");
    reveal_strlit("lenient");
    reveal_strlit("max_determinized_states");
    reveal_strlit("minimum_should_match");
    reveal_strlit("phrase_slop");
    reveal_strlit("query");
    reveal_strlit("quote_analyzer");
    reveal_strlit("quote_field_suffix");
    reveal_strlit("time_zone");
    reveal_strlit("type");
    let s = x.slots();
    assert(s.len() == 21);
    assert(s[0].0 == "query"@);
    assert(s[1].0 == "default_field"@);
    assert(s[2].0 == "type"@);
    assert(s[3].0 == "fuzziness"@);
    assert(s[4].0 == "fuzzy_transpositions"@);
    assert(s[5].0 == "fuzzy_max_expansions"@);
    assert(s[6].0 == "fuzzy_prefix_length"@);
    assert(s[7].0 == "minimum_should_match"@);
    assert(s[8].0 == "default_operator"@);
    assert(s[9].0 == "analyzer"@);
    assert(s[10].0 == "lenient"@);
    assert(s[11].0 == "boost"@);
    assert(s[12].0 == "allow_leading_wildcard"@);
    assert(s[13].0 == "enable_position_increments"@);
    assert(s[14].0 == "phrase_slop"@);
    assert(s[15].0 == "max_determinized_states"@);
    assert(s[16].0 == "time_zone"@);
    assert(s[17].0 == "quote_field_suffix"@);
    assert(s[18].0 == "quote_analyzer"@);
    assert(s[19].0 == "analyze_wildcard"@);
    assert(s[20].0 == "auto_generate_synonyms_phrase_query"@);
    assert("allow_leading_wildcard"@.len() == 22);
    assert("analyze_wildcard"@.len() == 16);
    assert("analyzer"@.len() == 8);
    assert("auto_generate_synonyms_phrase_query"@.len() == 35);
    assert("boost"@.len() == 5);
    assert("default_field"@.len() == 13);
    assert("default_operator"@.len() == 16);
    assert("enable_position_increments"@.len() == 26);
    assert("fuzziness"@.len() == 9);
    assert("fuzzy_max_expansions"@.len() == 20);
    assert("fuzzy_prefix_length"@.len() == 19);
    assert("fuzzy_transpositions"@.len() == 20);
    assert("lenient"@.len() == 7);
    assert("max_determinized_states"@.len() == 23);
    assert("minimum_should_match"@.len() == 20);
    assert("phrase_slop"@.len() == 11);
    assert("query"@.len() == 5);
    assert("quote_analyzer"@.len() == 14);
    assert("quote_field_suffix"@.len() == 18);
    assert("time_zone"@.len() == 9);
    assert("type"@.len() == 4);
    assert("analyze_wildcard"@[0] == 'a');
    assert("boost"@[0] == 'b');
    assert("default_operator"@[0] == 'd');
    assert("fuzziness"@[0] == 'f');
    assert("fuzzy_max_expansions"@[0] == 'f');
    assert("fuzzy_max_expansions"@[6] == 'm');
    assert("fuzzy_transpositions"@[0] == 'f');
    assert("fuzzy_transpositions"@[6] == 't');
    assert("minimum_should_match"@[0] == 'm');
    assert("query"@[0] == 'q');
    assert("time_zone"@[0] == 't');
    if x.default_field is None {
        lemma_present_omits_at(s, 1);
    }
    if x.query_type is None {
        lemma_present_omits_at(s, 2);
    }
    if x.fuzziness is None {
        lemma_present_omits_at(s, 3);
    }
    if x.fuzzy_transpositions is None {
        lemma_present_omits_at(s, 4);
    }
    if x.fuzzy_max_expansions is None {
        lemma_present_omits_at(s, 5);
    }
    if x.fuzzy_prefix_length is None {
        lemma_present_omits_at(s, 6);
    }
    if x.minimum_should_match is None {
        lemma_present_omits_at(s, 7);
    }
    if x.default_operator is None {
        lemma_present_omits_at(s, 8);
    }
    if x.analyzer is None {
        lemma_present_omits_at(s, 9);
    }
    if x.lenient is None {
        lemma_present_omits_at(s, 10);
    }
    if x.boost is None {
        lemma_present_omits_at(s, 11);
    }
    if x.allow_leading_wildcard is None {
        lemma_present_omits_at(s, 12);
    }
    if x.enable_position_increments is None {
        lemma_present_omits_at(s, 13);
    }
    if x.phrase_slop is None {
        lemma_present_omits_at(s, 14);
    }
    if x.max_determinized_states is None {
        lemma_present_omits_at(s, 15);
    }
    if x.time_zone is None {
        lemma_present_omits_at(s, 16);
    }
    if x.quote_field_suffix is None {
        lemma_present_omits_at(s, 17);
    }
    if x.quote_analyzer is None {
        lemma_present_omits_at(s, 18);
    }
    if x.analyze_wildcard is None {
        lemma_present_omits_at(s, 19);
    }
    if x.auto_generate_synonyms_phrase_query is None {
        lemma_present_omits_at(s, 20);
    }
}

/// Every optional attribute left unset on this node stays out of the
/// emitted object.
pub proof fn lemma_simple_query_string_omits_unset(x: SimpleQueryString)
    ensures
        x.flags is None ==> !has_key(present(x.slots()), "flags"@),
        x.fuzzy_transpositions is None ==> !has_key(present(x.slots()), "fuzzy_transpositions"@),
        x.fuzzy_max_expansions is None ==> !has_key(present(x.slots()), "fuzzy_max_expansions"@),
        x.fuzzy_prefix_length is None ==> !has_key(present(x.slots()), "fuzzy_prefix_length"@),
        x.minimum_should_match is None ==> !has_key(present(x.slots()), "minimum_should_match"@),
        x.default_operator is None ==> !has_key(present(x.slots()), "default_operator"@),
        x.analyzer is None ==> !has_key(present(x.slots()), "analyzer"@),
        x.lenient is None ==> !has_key(present(x.slots()), "lenient"@),
        x.quote_field_suffix is None ==> !has_key(present(x.slots()), "quote_field_suffix"@),
        x.analyze_wildcard is None ==> !has_key(present(x.slots()), "analyze_wildcard"@),
        x.auto_generate_synonyms_phrase_query is None ==> !has_key(present(x.slots()), "auto_generate_synonyms_phrase_query"@),
{
    reveal_strlit("analyze_wildcard");
    reveal_strlit("analyzer");
    reveal_strlit("auto_generate_synonyms_phrase_query");
    reveal_strlit("default_operator");
    reveal_strlit("fields");
    reveal_strlit("flags");
    reveal_strlit("fuzzy_max_expansions");
    reveal_strlit("fuzzy_prefix_length");
    reveal_strlit("fuzzy_transpositions");
    reveal_strlit("lenient");
    reveal_strlit("minimum_should_match");
    reveal_strlit("query");
    reveal_strlit("quote_field_suffix");
    let s = x.slots();
    assert(s.len() == 13);
    assert(s[0].0 == "query"@);
    assert(s[1].0 == "fields"@);
    assert(s[2].0 == "flags"@);
    assert(s[3].0 == "fuzzy_transpositions"@);
    assert(s[4].0 == "fuzzy_max_expansions"@);
    assert(s[5].0 == "fuzzy_prefix_length"@);
    assert(s[6].0 == "minimum_should_match"@);
    assert(s[7].0 == "default_operator"@);
    assert(s[8].0 == "analyzer"@);
    assert(s[9].0 == "lenient"@);
    assert(s[10].0 == "quote_field_suffix"@);
    assert(s[11].0 == "analyze_wildcard"@);
    assert(s[12].0 == "auto_generate_synonyms_phrase_query"@);
    assert("analyze_wildcard"@.len() == 16);
    assert("analyzer"@.len() == 8);
    assert("auto_generate_synonyms_phrase_query"@.len() == 35);
    assert("default_operator"@.len() == 16);
    assert("fields"@.len() == 6);
    assert("flags"@.len() == 5);
    assert("fuzzy_max_expansions"@.len() == 20);
    assert("fuzzy_prefix_length"@.len() == 19);
    assert("fuzzy_transpositions"@.len() == 20);
    assert("lenient"@.len() == 7);
    assert("minimum_should_match"@.len() == 20);
    assert("query"@.len() == 5);
    assert("quote_field_suffix"@.len() == 18);
    assert("analyze_wildcard"@[0] == 'a');
    assert("default_operator"@[0] == 'd');
    assert("flags"@[0] == 'f');
    assert("fuzzy_max_expansions"@[0] == 'f');
    assert("fuzzy_max_expansions"@[6] == 'm');
    assert("fuzzy_transpositions"@[0] == 'f');
    assert("fuzzy_transpositions"@[6] == 't');
    assert("minimum_should_match"@[0] == 'm');
    assert("query"@[0] == 'q');
    if x.flags is None {
        lemma_present_omits_at(s, 2);
    }
    if x.fuzzy_transpositions is None {
        lemma_present_omits_at(s, 3);
    }
    if x.fuzzy_max_expansions is None {
        lemma_present_omits_at(s, 4);
    }
    if x.fuzzy_prefix_length is None {
        lemma_present_omits_at(s, 5);
    }
    if x.minimum_should_match is None {
        lemma_present_omits_at(s, 6);
    }
    if x.default_operator is None {
        lemma_present_omits_at(s, 7);
    }
    if x.analyzer is None {
        lemma_present_omits_at(s, 8);
    }
    if x.lenient is None {
        lemma_present_omits_at(s, 9);
    }
    if x.quote_field_suffix is None {
        lemma_present_omits_at(s, 10);
    }
    if x.analyze_wildcard is None {
        lemma_present_omits_at(s, 11);
    }
    if x.auto_generate_synonyms_phrase_query is None {
        lemma_present_omits_at(s, 12);
    }
}

/// Every optional attribute left unset on this node stays out of the
/// emitted object.
pub proof fn lemma_match_rule_omits_unset(x: MatchRule)
    ensures
        x.analyzer is None ==> !has_key(present(x.slots()), "analyzer"@),
        x.max_gaps is None ==> !has_key(present(x.slots()), "max_gaps"@),
        x.ordered is None ==> !has_key(present(x.slots()), "ordered"@),
        x.use_field is None ==> !has_key(present(x.slots()), "use_field"@),
        x.filter is None ==> !has_key(present(x.slots()), "filter"@),
{
    reveal_strlit("analyzer");
    reveal_strlit("filter");
    reveal_strlit("max_gaps");
    reveal_strlit("ordered");
    reveal_strlit("query");
    reveal_strlit("use_field");
    let s = x.slots();
    assert(s.len() == 6);
    assert(s[0].0 == "query"@);
    assert(s[1].0 == "analyzer"@);
    assert(s[2].0 == "max_gaps"@);
    assert(s[3].0 == "ordered"@);
    assert(s[4].0 == "use_field"@);
    assert(s[5].0 == "filter"@);
    assert("analyzer"@.len() == 8);
    assert("filter"@.len() == 6);
    assert("max_gaps"@.len() == 8);
    assert("ordered"@.len() == 7);
    assert("query"@.len() == 5);
    assert("use_field"@.len() == 9);
    assert("analyzer"@[0] == 'a');
    assert("max_gaps"@[0] == 'm');
    if x.analyzer is None {
        lemma_present_omits_at(s, 1);
    }
    if x.max_gaps is None {
        lemma_present_omits_at(s, 2);
    }
    if x.ordered is None {
        lemma_present_omits_at(s, 3);
    }
    if x.use_field is None {
        lemma_present_omits_at(s, 4);
    }
    if x.filter is None {
        lemma_present_omits_at(s, 5);
    }
}

/// Every optional attribute left unset on this node stays out of the
/// emitted object.
pub proof fn lemma_prefix_rule_omits_unset(x: PrefixRule)
    ensures
        x.analyzer is None ==> !has_key(present(x.slots()), "analyzer"@),
        x.use_field is None ==> !has_key(present(x.slots()), "use_field"@),
{
    reveal_strlit("analyzer");
    reveal_strlit("prefix");
    reveal_strlit("use_field");
    let s = x.slots();
    assert(s.len() == 3);
    assert(s[0].0 == "prefix"@);
    assert(s[1].0 == "analyzer"@);
    assert(s[2].0 == "use_field"@);
    assert("analyzer"@.len() == 8);
    assert("prefix"@.len() == 6);
    assert("use_field"@.len() == 9);
    if x.analyzer is None {
        lemma_present_omits_at(s, 1);
    }
    if x.use_field is None {
        lemma_present_omits_at(s, 2);
    }
}

/// Every optional attribute left unset on this node stays out of the
/// emitted object.
pub proof fn lemma_wildcard_rule_omits_unset(x: WildcardRule)
    ensures
        x.analyzer is None ==> !has_key(present(x.slots()), "analyzer"@),
        x.use_field is None ==> !has_key(present(x.slots()), "use_field"@),
{
    reveal_strlit("analyzer");
    reveal_strlit("pattern");
    reveal_strlit("use_field");
    let s = x.slots();
    assert(s.len() == 3);
    assert(s[0].0 == "pattern"@);
    assert(s[1].0 == "analyzer"@);
    assert(s[2].0 == "use_field"@);
    assert("analyzer"@.len() == 8);
    assert("pattern"@.len() == 7);
    assert("use_field"@.len() == 9);
    if x.analyzer is None {
        lemma_present_omits_at(s, 1);
    }
    if x.use_field is None {
        lemma_present_omits_at(s, 2);
    }
}

/// Every optional attribute left unset on this node stays out of the
/// emitted object.
pub proof fn lemma_fuzzy_rule_omits_unset(x: FuzzyRule)
    ensures
        x.analyzer is None ==> !has_key(present(x.slots()), "analyzer"@),
        x.fuzziness is None ==> !has_key(present(x.slots()), "fuzziness"@),
        x.transpositions is None ==> !has_key(present(x.slots()), "transpositions"@),
        x.prefix_length is None ==> !has_key(present(x.slots()), "prefix_length"@),
        x.use_field is None ==> !has_key(present(x.slots()), "use_field"@),
{
    reveal_strlit("analyzer");
    reveal_strlit("fuzziness");
    reveal_strlit("prefix_length");
    reveal_strlit("term");
    reveal_strlit("transpositions");
    reveal_strlit("use_field");
    let s = x.slots();
    assert(s.len() == 6);
    assert(s[0].0 == "term"@);
    assert(s[1].0 == "analyzer"@);
    assert(s[2].0 == "fuzziness"@);
    assert(s[3].0 == "transpositions"@);
    assert(s[4].0 == "prefix_length"@);
    assert(s[5].0 == "use_field"@);
    assert("analyzer"@.len() == 8);
    assert("fuzziness"@.len() == 9);
    assert("prefix_length"@.len() == 13);
    assert("term"@.len() == 4);
    assert("transpositions"@.len() == 14);
    assert("use_field"@.len() == 9);
    assert("fuzziness"@[0] == 'f');
    assert("use_field"@[0] == 'u');
    if x.analyzer is None {
        lemma_present_omits_at(s, 1);
    }
    if x.fuzziness is None {
        lemma_present_omits_at(s, 2);
    }
    if x.transpositions is None {
        lemma_present_omits_at(s, 3);
    }
    if x.prefix_length is None {
        lemma_present_omits_at(s, 4);
    }
    if x.use_field is None {
        lemma_present_omits_at(s, 5);
    }
}

/// Every optional attribute left unset on this node stays out of the
/// emitted object.
pub proof fn lemma_all_of_rule_omits_unset(x: AllOfRule)
    ensures
        x.filter is None ==> !has_key(present(x.slots()), "filter"@),
        x.max_gaps is None ==> !has_key(present(x.slots()), "max_gaps"@),
        x.ordered is None ==> !has_key(present(x.slots()), "ordered"@),
{
    reveal_strlit("filter");
    reveal_strlit("interval");
    reveal_strlit("max_gaps");
    reveal_strlit("ordered");
    let s = x.slots();
    assert(s.len() == 4);
    assert(s[0].0 == "interval"@);
    assert(s[1].0 == "filter"@);
    assert(s[2].0 == "max_gaps"@);
    assert(s[3].0 == "ordered"@);
    assert("filter"@.len() == 6);
    assert("interval"@.len() == 8);
    assert("max_gaps"@.len() == 8);
    assert("ordered"@.len() == 7);
    assert("interval"@[0] == 'i');
    assert("max_gaps"@[0] == 'm');
    if x.filter is None {
        lemma_present_omits_at(s, 1);
    }
    if x.max_gaps is None {
        lemma_present_omits_at(s, 2);
    }
    if x.ordered is None {
        lemma_present_omits_at(s, 3);
    }
}

/// Every optional attribute left unset on this node stays out of the
/// emitted object.
pub proof fn lemma_any_of_rule_omits_unset(x: AnyOfRule)
    ensures
        x.filter is None ==> !has_key(present(x.slots()), "filter"@),
{
    reveal_strlit("filter");
    reveal_strlit("interval");
    let s = x.slots();
    assert(s.len() == 2);
    assert(s[0].0 == "interval"@);
    assert(s[1].0 == "filter"@);
    assert("filter"@.len() == 6);
    assert("interval"@.len() == 8);
    if x.filter is None {
        lemma_present_omits_at(s, 1);
    }
}

/// Every optional attribute left unset on this node stays out of the
/// emitted object.
pub proof fn lemma_bool_compound_omits_unset(x: Bool)
    ensures
        x.must is None ==> !has_key(present(x.slots()), "must"@),
        x.must_not is None ==> !has_key(present(x.slots()), "must_not"@),
        x.filter is None ==> !has_key(present(x.slots()), "filter"@),
        x.should is None ==> !has_key(present(x.slots()), "should"@),
        x.minimum_should_match is None ==> !has_key(present(x.slots()), "minimum_should_match"@),
{
    reveal_strlit("filter");
    reveal_strlit("minimum_should_match");
    reveal_strlit("must");
    reveal_strlit("must_not");
    reveal_strlit("should");
    let s = x.slots();
    assert(s.len() == 5);
    assert(s[0].0 == "must"@);
    assert(s[1].0 == "must_not"@);
    assert(s[2].0 == "filter"@);
    assert(s[3].0 == "should"@);
    assert(s[4].0 == "minimum_should_match"@);
    assert("filter"@.len() == 6);
    assert("minimum_should_match"@.len() == 20);
    assert("must"@.len() == 4);
    assert("must_not"@.len() == 8);
    assert("should"@.len() == 6);
    assert("filter"@[0] == 'f');
    assert("should"@[0] == 's');
    if x.must is None {
        lemma_present_omits_at(s, 0);
    }
    if x.must_not is None {
        lemma_present_omits_at(s, 1);
    }
    if x.filter is None {
        lemma_present_omits_at(s, 2);
    }
    if x.should is None {
        lemma_present_omits_at(s, 3);
    }
    if x.minimum_should_match is None {
        lemma_present_omits_at(s, 4);
    }
}

/// Every optional attribute left unset on this node stays out of the
/// emitted object.
pub proof fn lemma_boosting_omits_unset(x: Boosting)
    ensures
        x.negative_boost is None ==> !has_key(present(x.slots()), "negative_boost"@),
{
    reveal_strlit("negative");
    reveal_strlit("negative_boost");
    reveal_strlit("positive");
    let s = x.slots();
    assert(s.len() == 3);
    assert(s[0].0 == "positive"@);
    assert(s[1].0 == "negative"@);
    assert(s[2].0 == "negative_boost"@);
    assert("negative"@.len() == 8);
    assert("negative_boost"@.len() == 14);
    assert("positive"@.len() == 8);
    assert("negative"@[0] == 'n');
    assert("positive"@[0] == 'p');
    if x.negative_boost is None {
        lemma_present_omits_at(s, 2);
    }
}

/// Every optional attribute left unset on this node stays out of the
/// emitted object.
pub proof fn lemma_constant_score_omits_unset(x: ConstantScore)
    ensures
        x.boost is None ==> !has_key(present(x.slots()), "boost"@),
{
    reveal_strlit("boost");
    reveal_strlit("filter");
    let s = x.slots();
    assert(s.len() == 2);
    assert(s[0].0 == "filter"@);
    assert(s[1].0 == "boost"@);
    assert("boost"@.len() == 5);
    assert("filter"@.len() == 6);
    if x.boost is None {
        lemma_present_omits_at(s, 1);
    }
}

/// Every optional attribute left unset on this node stays out of the
/// emitted object.
pub proof fn lemma_dis_max_omits_unset(x: DisMax)
    ensures
        x.tie_breaker is None ==> !has_key(present(x.slots()), "tie_breaker"@),
{
    reveal_strlit("queries");
    reveal_strlit("tie_breaker");
    let s = x.slots();
    assert(s.len() == 2);
    assert(s[0].0 == "queries"@);
    assert(s[1].0 == "tie_breaker"@);
    assert("queries"@.len() == 7);
    assert("tie_breaker"@.len() == 11);
    if x.tie_breaker is None {
        lemma_present_omits_at(s, 1);
    }
}

/// Every optional attribute left unset on this node stays out of the
/// emitted object.
pub proof fn lemma_request_omits_unset(x: Query)
    ensures
        x.from is None ==> !has_key(present(x.slots()), "from"@),
        x.size is None ==> !has_key(present(x.slots()), "size"@),
        x.source is None ==> !has_key(present(x.slots()), "_source"@),
        x.query is None ==> !has_key(present(x.slots()), "query"@),
        x.aggs is None ==> !has_key(present(x.slots()), "aggs"@),
{
    reveal_strlit("_source");
    reveal_strlit("aggs");
    reveal_strlit("from");
    reveal_strlit("query");
    reveal_strlit("size");
    let s = x.slots();
    assert(s.len() == 5);
    assert(s[0].0 == "from"@);
    assert(s[1].0 == "size"@);
    assert(s[2].0 == "_source"@);
    assert(s[3].0 == "query"@);
    assert(s[4].0 == "aggs"@);
    assert("_source"@.len() == 7);
    assert("aggs"@.len() == 4);
    assert("from"@.len() == 4);
    assert("query"@.len() == 5);
    assert("size"@.len() == 4);
    assert("aggs"@[0] == 'a');
    assert("from"@[0] == 'f');
    assert("size"@[0] == 's');
    if x.from is None {
        lemma_present_omits_at(s, 0);
    }
    if x.size is None {
        lemma_present_omits_at(s, 1);
    }
    if x.source is None {
        lemma_present_omits_at(s, 2);
    }
    if x.query is None {
        lemma_present_omits_at(s, 3);
    }
    if x.aggs is None {
        lemma_present_omits_at(s, 4);
    }
}

/// Every optional attribute left unset on this node stays out of the
/// emitted object.
pub proof fn lemma_aggregate_terms_values_omits_unset(x: AggregateTermsValues)
    ensures
        x.size is None ==> !has_key(present(x.slots()), "size"@),
{
    reveal_strlit("field");
    reveal_strlit("size");
    let s = x.slots();
    assert(s.len() == 2);
    assert(s[0].0 == "field"@);
    assert(s[1].0 == "size"@);
    assert("field"@.len() == 5);
    assert("size"@.len() == 4);
    if x.size is None {
        lemma_present_omits_at(s, 1);
    }
}

/// However this node was built, it serializes as a single-entry object
/// whose only key is its field name.
pub proof fn lemma_intervals_single_field_key(x: Intervals)
    ensures
        x.jval() matches JVal::Obj(es) && es.len() == 1 && es[0].0 == field_key(x.field),
{
}

/// One builder call on this node, reified so that call order can be
/// spoken of.
pub enum MatchCall {
    Field(String),
    Value(Json),
    Operator(Operator),
    Analyzer(String),
    ZeroTermsQuery(ZeroTermsQuery),
    Lenient(bool),
    PrefixLength(u64),
    MaxExpansions(u64),
    Boost(Decimal),
    Fuzziness(Fuzziness),
    FuzzyTranspositions(bool),
    MinimumShouldMatch(String),
}

pub open spec fn match_call_idx(c: MatchCall) -> int {
    match c {
        MatchCall::Field(_) => 0,
        MatchCall::Value(_) => 1,
        MatchCall::Operator(_) => 2,
        MatchCall::Analyzer(_) => 3,
        MatchCall::ZeroTermsQuery(_) => 4,
        MatchCall::Lenient(_) => 5,
        MatchCall::PrefixLength(_) => 6,
        MatchCall::MaxExpansions(_) => 7,
        MatchCall::Boost(_) => 8,
        MatchCall::Fuzziness(_) => 9,
        MatchCall::FuzzyTranspositions(_) => 10,
        MatchCall::MinimumShouldMatch(_) => 11,
    }
}

impl Match {
    /// The value each builder call leaves behind, exactly as the call's
    /// contract states it.
    pub open spec fn apply(self, c: MatchCall) -> Match {
        match c {
            MatchCall::Field(x) => Match { field: Some(x), ..self },
            MatchCall::Value(x) => Match { value: MatchValues { query: Some(x), ..self.value }, ..self },
            MatchCall::Operator(x) => Match { value: MatchValues { operator: Some(x), ..self.value }, ..self },
            MatchCall::Analyzer(x) => Match { value: MatchValues { analyzer: Some(x), ..self.value }, ..self },
            MatchCall::ZeroTermsQuery(x) => Match { value: MatchValues { zero_terms_query: Some(x), ..self.value }, ..self },
            MatchCall::Lenient(x) => Match { value: MatchValues { lenient: Some(x), ..self.value }, ..self },
            MatchCall::PrefixLength(x) => Match { value: MatchValues { prefix_length: Some(x), ..self.value }, ..self },
            MatchCall::MaxExpansions(x) => Match { value: MatchValues { max_expansions: Some(x), ..self.value }, ..self },
            MatchCall::Boost(x) => Match { value: MatchValues { boost: Some(x), ..self.value }, ..self },
            MatchCall::Fuzziness(x) => Match { value: MatchValues { fuzziness: Some(x), ..self.value }, ..self },
            MatchCall::FuzzyTranspositions(x) => Match { value: MatchValues { fuzzy_transpositions: Some(x), ..self.value }, ..self },
            MatchCall::MinimumShouldMatch(x) => Match { value: MatchValues { minimum_should_match: Some(x), ..self.value }, ..self },
        }
    }
}

/// Builder calls that set distinct attributes commute: only the final set
/// of attributes matters, not the order of the calls.
pub proof fn lemma_match_order_independent(m: Match, a: MatchCall, b: MatchCall)
    requires
        match_call_idx(a) != match_call_idx(b),
    ensures
        m.apply(a).apply(b) == m.apply(b).apply(a),
{
}

/// One builder call on this node, reified so that call order can be
/// spoken of.
pub enum MatchPhraseCall {
    Field(String),
    Value(Json),
    Slop(u64),
    Analyzer(String),
    ZeroTermsQuery(String),
}

pub open spec fn match_phrase_call_idx(c: MatchPhraseCall) -> int {
    match c {
        MatchPhraseCall::Field(_) => 0,
        MatchPhraseCall::Value(_) => 1,
        MatchPhraseCall::Slop(_) => 2,
        MatchPhraseCall::Analyzer(_) => 3,
        MatchPhraseCall::ZeroTermsQuery(_) => 4,
    }
}

impl MatchPhrase {
    /// The value each builder call leaves behind, exactly as the call's
    /// contract states it.
    pub open spec fn apply(self, c: MatchPhraseCall) -> MatchPhrase {
        match c {
            MatchPhraseCall::Field(x) => MatchPhrase { field: Some(x), ..self },
            MatchPhraseCall::Value(x) => MatchPhrase { value: MatchPhraseValues { query: Some(x), ..self.value }, ..self },
            MatchPhraseCall::Slop(x) => MatchPhrase { value: MatchPhraseValues { slop: Some(x), ..self.value }, ..self },
            MatchPhraseCall::Analyzer(x) => MatchPhrase { value: MatchPhraseValues { analyzer: Some(x), ..self.value }, ..self },
            MatchPhraseCall::ZeroTermsQuery(x) => MatchPhrase { value: MatchPhraseValues { zero_terms_query: Some(x), ..self.value }, ..self },
        }
    }
}

/// Builder calls that set distinct attributes commute: only the final set
/// of attributes matters, not the order of the calls.
pub proof fn lemma_match_phrase_order_independent(m: MatchPhrase, a: MatchPhraseCall, b: MatchPhraseCall)
    requires
        match_phrase_call_idx(a) != match_phrase_call_idx(b),
    ensures
        m.apply(a).apply(b) == m.apply(b).apply(a),
{
}

/// One builder call on this node, reified so that call order can be
/// spoken of.
pub enum MatchPhrasePrefixCall {
    Field(String),
    Value(Json),
    Slop(u64),
    Analyzer(String),
    MaxExpansions(u64),
}

pub open spec fn match_phrase_prefix_call_idx(c: MatchPhrasePrefixCall) -> int {
    match c {
        MatchPhrasePrefixCall::Field(_) => 0,
        MatchPhrasePrefixCall::Value(_) => 1,
        MatchPhrasePrefixCall::Slop(_) => 2,
        MatchPhrasePrefixCall::Analyzer(_) => 3,
        MatchPhrasePrefixCall::MaxExpansions(_) => 4,
    }
}

impl MatchPhrasePrefix {
    /// The value each builder call leaves behind, exactly as the call's
    /// contract states it.
    pub open spec fn apply(self, c: MatchPhrasePrefixCall) -> MatchPhrasePrefix {
        match c {
            MatchPhrasePrefixCall::Field(x) => MatchPhrasePrefix { field: Some(x), ..self },
            MatchPhrasePrefixCall::Value(x) => MatchPhrasePrefix { value: MatchPhrasePrefixValues { query: Some(x), ..self.value }, ..self },
            MatchPhrasePrefixCall::Slop(x) => MatchPhrasePrefix { value: MatchPhrasePrefixValues { slop: Some(x), ..self.value }, ..self },
            MatchPhrasePrefixCall::Analyzer(x) => MatchPhrasePrefix { value: MatchPhrasePrefixValues { analyzer: Some(x), ..self.value }, ..self },
            MatchPhrasePrefixCall::MaxExpansions(x) => MatchPhrasePrefix { value: MatchPhrasePrefixValues { max_expansions: Some(x), ..self.value }, ..self },
        }
    }
}

/// Builder calls that set distinct attributes commute: only the final set
/// of attributes matters, not the order of the calls.
pub proof fn lemma_match_phrase_prefix_order_independent(m: MatchPhrasePrefix, a: MatchPhrasePrefixCall, b: MatchPhrasePrefixCall)
    requires
        match_phrase_prefix_call_idx(a) != match_phrase_prefix_call_idx(b),
    ensures
        m.apply(a).apply(b) == m.apply(b).apply(a),
{
}

/// One builder call on this node, reified so that call order can be
/// spoken of.
pub enum MatchBoolPrefixCall {
    Field(String),
    Query(String),
    FuzzyRewrite(Rewrite),
    Operator(Operator),
    Analyzer(String),
    PrefixLength(u64),
    MaxExpansions(u64),
    Fuzziness(Fuzziness),
    FuzzyTranspositions(bool),
    MinimumShouldMatch(String),
}

pub open spec fn match_bool_prefix_call_idx(c: MatchBoolPrefixCall) -> int {
    match c {
        MatchBoolPrefixCall::Field(_) => 0,
        MatchBoolPrefixCall::Query(_) => 1,
        MatchBoolPrefixCall::FuzzyRewrite(_) => 2,
        MatchBoolPrefixCall::Operator(_) => 3,
        MatchBoolPrefixCall::Analyzer(_) => 4,
        MatchBoolPrefixCall::PrefixLength(_) => 5,
        MatchBoolPrefixCall::MaxExpansions(_) => 6,
        MatchBoolPrefixCall::Fuzziness(_) => 7,
        MatchBoolPrefixCall::FuzzyTranspositions(_) => 8,
        MatchBoolPrefixCall::MinimumShouldMatch(_) => 9,
    }
}

impl MatchBoolPrefix {
    /// The value each builder call leaves behind, exactly as the call's
    /// contract states it.
    pub open spec fn apply(self, c: MatchBoolPrefixCall) -> MatchBoolPrefix {
        match c {
            MatchBoolPrefixCall::Field(x) => MatchBoolPrefix { field: Some(x), ..self },
            MatchBoolPrefixCall::Query(x) => MatchBoolPrefix { value: MatchBoolPrefixValue { query: x, ..self.value }, ..self },
            MatchBoolPrefixCall::FuzzyRewrite(x) => MatchBoolPrefix { value: MatchBoolPrefixValue { fuzzy_rewrite: Some(x), ..self.value }, ..self },
            MatchBoolPrefixCall::Operator(x) => MatchBoolPrefix { value: MatchBoolPrefixValue { operator: Some(x), ..self.value }, ..self },
            MatchBoolPrefixCall::Analyzer(x) => MatchBoolPrefix { value: MatchBoolPrefixValue { analyzer: Some(x), ..self.value }, ..self },
            MatchBoolPrefixCall::PrefixLength(x) => MatchBoolPrefix { value: MatchBoolPrefixValue { prefix_length: Some(x), ..self.value }, ..self },
            MatchBoolPrefixCall::MaxExpansions(x) => MatchBoolPrefix { value: MatchBoolPrefixValue { max_expansions: Some(x), ..self.value }, ..self },
            MatchBoolPrefixCall::Fuzziness(x) => MatchBoolPrefix { value: MatchBoolPrefixValue { fuzziness: Some(x), ..self.value }, ..self },
            MatchBoolPrefixCall::FuzzyTranspositions(x) => MatchBoolPrefix { value: MatchBoolPrefixValue { fuzzy_transpositions: Some(x), ..self.value }, ..self },
            MatchBoolPrefixCall::MinimumShouldMatch(x) => MatchBoolPrefix { value: MatchBoolPrefixValue { minimum_should_match: Some(x), ..self.value }, ..self },
        }
    }
}

/// Builder calls that set distinct attributes commute: only the final set
/// of attributes matters, not the order of the calls.
pub proof fn lemma_match_bool_prefix_order_independent(m: MatchBoolPrefix, a: MatchBoolPrefixCall, b: MatchBoolPrefixCall)
    requires
        match_bool_prefix_call_idx(a) != match_bool_prefix_call_idx(b),
    ensures
        m.apply(a).apply(b) == m.apply(b).apply(a),
{
}

/// One builder call on this node, reified so that call order can be
/// spoken of.
pub enum MultiMatchCall {
    Fields(Vec<String>),
    Value(Json),
    QueryType(Type),
    Operator(Operator),
    MinimumShouldMatch(String),
    TieBreaker(Decimal),
    Analyzer(String),
    Boost(Decimal),
    Fuzziness(Fuzziness),
    FuzzyTranspositions(bool),
    Lenient(bool),
    PrefixLength(u64),
    MaxExpansions(u64),
    AutoGenerateSynonymsPhraseQuery(bool),
    ZeroTermsQuery(ZeroTermsQuery),
}

pub open spec fn multi_match_call_idx(c: MultiMatchCall) -> int {
    match c {
        MultiMatchCall::Fields(_) => 0,
        MultiMatchCall::Value(_) => 1,
        MultiMatchCall::QueryType(_) => 2,
        MultiMatchCall::Operator(_) => 3,
        MultiMatchCall::MinimumShouldMatch(_) => 4,
        MultiMatchCall::TieBreaker(_) => 5,
        MultiMatchCall::Analyzer(_) => 6,
        MultiMatchCall::Boost(_) => 7,
        MultiMatchCall::Fuzziness(_) => 8,
        MultiMatchCall::FuzzyTranspositions(_) => 9,
        MultiMatchCall::Lenient(_) => 10,
        MultiMatchCall::PrefixLength(_) => 11,
        MultiMatchCall::MaxExpansions(_) => 12,
        MultiMatchCall::AutoGenerateSynonymsPhraseQuery(_) => 13,
        MultiMatchCall::ZeroTermsQuery(_) => 14,
    }
}

impl MultiMatch {
    /// The value each builder call leaves behind, exactly as the call's
    /// contract states it.
    pub open spec fn apply(self, c: MultiMatchCall) -> MultiMatch {
        match c {
            MultiMatchCall::Fields(x) => MultiMatch { fields: x, ..self },
            MultiMatchCall::Value(x) => MultiMatch { query: Some(x), ..self },
            MultiMatchCall::QueryType(x) => MultiMatch { query_type: Some(x), ..self },
            MultiMatchCall::Operator(x) => MultiMatch { operator: Some(x), ..self },
            MultiMatchCall::MinimumShouldMatch(x) => MultiMatch { minimum_should_match: Some(x), ..self },
            MultiMatchCall::TieBreaker(x) => MultiMatch { tie_breaker: Some(x), ..self },
            MultiMatchCall::Analyzer(x) => MultiMatch { analyzer: Some(x), ..self },
            MultiMatchCall::Boost(x) => MultiMatch { boost: Some(x), ..self },
            MultiMatchCall::Fuzziness(x) => MultiMatch { fuzziness: Some(x), ..self },
            MultiMatchCall::FuzzyTranspositions(x) => MultiMatch { fuzzy_transpositions: Some(x), ..self },
            MultiMatchCall::Lenient(x) => MultiMatch { lenient: Some(x), ..self },
            MultiMatchCall::PrefixLength(x) => MultiMatch { prefix_length: Some(x), ..self },
            MultiMatchCall::MaxExpansions(x) => MultiMatch { max_expansions: Some(x), ..self },
            MultiMatchCall::AutoGenerateSynonymsPhraseQuery(x) => MultiMatch { auto_generate_synonyms_phrase_query: Some(x), ..self },
            MultiMatchCall::ZeroTermsQuery(x) => MultiMatch { zero_terms_query: Some(x), ..self },
        }
    }
}

/// Builder calls that set distinct attributes commute: only the final set
/// of attributes matters, not the order of the calls.
#[verifier::rlimit(100)]
pub proof fn lemma_multi_match_order_independent(m: MultiMatch, a: MultiMatchCall, b: MultiMatchCall)
    requires
        multi_match_call_idx(a) != multi_match_call_idx(b),
    ensures
        m.apply(a).apply(b) == m.apply(b).apply(a),
{
}

/// One builder call on this node, reified so that call order can be
/// spoken of.
pub enum QueryStringCall {
    Value(String),
    DefaultField(String),
    QueryType(Type),
    Fuzziness(Fuzziness),
    FuzzyTranspositions(bool),
    FuzzyMaxExpansions(u64),
    FuzzyPrefixLength(u64),
    MinimumShouldMatch(String),
    DefaultOperator(Operator),
    Analyzer(String),
    Lenient(bool),
    Boost(Decimal),
    AllowLeadingWildcard(bool),
    EnablePositionIncrements(bool),
    PhraseSlop(u64),
    MaxDeterminizedStates(u64),
    TimeZone(String),
    QuoteFieldSuffix(String),
    QuoteAnalyzer(String),
    AnalyzeWildcard(bool),
    AutoGenerateSynonymsPhraseQuery(bool),
}

pub open spec fn query_string_call_idx(c: QueryStringCall) -> int {
    match c {
        QueryStringCall::Value(_) => 0,
        QueryStringCall::DefaultField(_) => 1,
        QueryStringCall::QueryType(_) => 2,
        QueryStringCall::Fuzziness(_) => 3,
        QueryStringCall::FuzzyTranspositions(_) => 4,
        QueryStringCall::FuzzyMaxExpansions(_) => 5,
        QueryStringCall::FuzzyPrefixLength(_) => 6,
        QueryStringCall::MinimumShouldMatch(_) => 7,
        QueryStringCall::DefaultOperator(_) => 8,
        QueryStringCall::Analyzer(_) => 9,
        QueryStringCall::Lenient(_) => 10,
        QueryStringCall::Boost(_) => 11,
        QueryStringCall::AllowLeadingWildcard(_) => 12,
        QueryStringCall::EnablePositionIncrements(_) => 13,
        QueryStringCall::PhraseSlop(_) => 14,
        QueryStringCall::MaxDeterminizedStates(_) => 15,
        QueryStringCall::TimeZone(_) => 16,
        QueryStringCall::QuoteFieldSuffix(_) => 17,
        QueryStringCall::QuoteAnalyzer(_) => 18,
        QueryStringCall::AnalyzeWildcard(_) => 19,
        QueryStringCall::AutoGenerateSynonymsPhraseQuery(_) => 20,
    }
}

impl QueryString {
    /// The value each builder call leaves behind, exactly as the call's
    /// contract states it.
    pub open spec fn apply(self, c: QueryStringCall) -> QueryString {
        match c {
            QueryStringCall::Value(x) => QueryString { query: Some(x), ..self },
            QueryStringCall::DefaultField(x) => QueryString { default_field: Some(x), ..self },
            QueryStringCall::QueryType(x) => QueryString { query_type: Some(x), ..self },
            QueryStringCall::Fuzziness(x) => QueryString { fuzziness: Some(x), ..self },
            QueryStringCall::FuzzyTranspositions(x) => QueryString { fuzzy_transpositions: Some(x), ..self },
            QueryStringCall::FuzzyMaxExpansions(x) => QueryString { fuzzy_max_expansions: Some(x), ..self },
            QueryStringCall::FuzzyPrefixLength(x) => QueryString { fuzzy_prefix_length: Some(x), ..self },
            QueryStringCall::MinimumShouldMatch(x) => QueryString { minimum_should_match: Some(x), ..self },
            QueryStringCall::DefaultOperator(x) => QueryString { default_operator: Some(x), ..self },
            QueryStringCall::Analyzer(x) => QueryString { analyzer: Some(x), ..self },
            QueryStringCall::Lenient(x) => QueryString { lenient: Some(x), ..self },
            QueryStringCall::Boost(x) => QueryString { boost: Some(x), ..self },
            QueryStringCall::AllowLeadingWildcard(x) => QueryString { allow_leading_wildcard: Some(x), ..self },
            QueryStringCall::EnablePositionIncrements(x) => QueryString { enable_position_increments: Some(x), ..self },
            QueryStringCall::PhraseSlop(x) => QueryString { phrase_slop: Some(x), ..self },
            QueryStringCall::MaxDeterminizedStates(x) => QueryString { max_determinized_states: Some(x), ..self },
            QueryStringCall::TimeZone(x) => QueryString { time_zone: Some(x), ..self },
            QueryStringCall::QuoteFieldSuffix(x) => QueryString { quote_field_suffix: Some(x), ..self },
            QueryStringCall::QuoteAnalyzer(x) => QueryString { quote_analyzer: Some(x), ..self },
            QueryStringCall::AnalyzeWildcard(x) => QueryString { analyze_wildcard: Some(x), ..self },
            QueryStringCall::AutoGenerateSynonymsPhraseQuery(x) => QueryString { auto_generate_synonyms_phrase_query: Some(x), ..self },
        }
    }
}

/// Builder calls that set distinct attributes commute: only the final set
/// of attributes matters, not the order of the calls.
#[verifier::rlimit(100)]
pub proof fn lemma_query_string_order_independent(m: QueryString, a: QueryStringCall, b: QueryStringCall)
    requires
        query_string_call_idx(a) != query_string_call_idx(b),
    ensures
        m.apply(a).apply(b) == m.apply(b).apply(a),
{
}

/// One builder call on this node, reified so that call order can be
/// spoken of.
pub enum SimpleQueryStringCall {
    Fields(Vec<String>),
    Value(String),
    Flags(String),
    FuzzyTranspositions(bool),
    FuzzyMaxExpansions(u64),
    FuzzyPrefixLength(u64),
    MinimumShouldMatch(String),
    DefaultOperator(Operator),
    Analyzer(String),
    Lenient(bool),
    QuoteFieldSuffix(String),
    AnalyzeWildcard(bool),
    AutoGenerateSynonymsPhraseQuery(bool),
}

pub open spec fn simple_query_string_call_idx(c: SimpleQueryStringCall) -> int {
    match c {
        SimpleQueryStringCall::Fields(_) => 0,
        SimpleQueryStringCall::Value(_) => 1,
        SimpleQueryStringCall::Flags(_) => 2,
        SimpleQueryStringCall::FuzzyTranspositions(_) => 3,
        SimpleQueryStringCall::FuzzyMaxExpansions(_) => 4,
        SimpleQueryStringCall::FuzzyPrefixLength(_) => 5,
        SimpleQueryStringCall::MinimumShouldMatch(_) => 6,
        SimpleQueryStringCall::DefaultOperator(_) => 7,
        SimpleQueryStringCall::Analyzer(_) => 8,
        SimpleQueryStringCall::Lenient(_) => 9,
        SimpleQueryStringCall::QuoteFieldSuffix(_) => 10,
        SimpleQueryStringCall::AnalyzeWildcard(_) => 11,
        SimpleQueryStringCall::AutoGenerateSynonymsPhraseQuery(_) => 12,
    }
}

impl SimpleQueryString {
    /// The value each builder call leaves behind, exactly as the call's
    /// contract states it.
    pub open spec fn apply(self, c: SimpleQueryStringCall) -> SimpleQueryString {
        match c {
            SimpleQueryStringCall::Fields(x) => SimpleQueryString { fields: x, ..self },
            SimpleQueryStringCall::Value(x) => SimpleQueryString { query: Some(x), ..self },
            SimpleQueryStringCall::Flags(x) => SimpleQueryString { flags: Some(x), ..self },
            SimpleQueryStringCall::FuzzyTranspositions(x) => SimpleQueryString { fuzzy_transpositions: Some(x), ..self },
            SimpleQueryStringCall::FuzzyMaxExpansions(x) => SimpleQueryString { fuzzy_max_expansions: Some(x), ..self },
            SimpleQueryStringCall::FuzzyPrefixLength(x) => SimpleQueryString { fuzzy_prefix_length: Some(x), ..self },
            SimpleQueryStringCall::MinimumShouldMatch(x) => SimpleQueryString { minimum_should_match: Some(x), ..self },
            SimpleQueryStringCall::DefaultOperator(x) => SimpleQueryString { default_operator: Some(x), ..self },
            SimpleQueryStringCall::Analyzer(x) => SimpleQueryString { analyzer: Some(x), ..self },
            SimpleQueryStringCall::Lenient(x) => SimpleQueryString { lenient: Some(x), ..self },
            SimpleQueryStringCall::QuoteFieldSuffix(x) => SimpleQueryString { quote_field_suffix: Some(x), ..self },
            SimpleQueryStringCall::AnalyzeWildcard(x) => SimpleQueryString { analyze_wildcard: Some(x), ..self },
            SimpleQueryStringCall::AutoGenerateSynonymsPhraseQuery(x) => SimpleQueryString { auto_generate_synonyms_phrase_query: Some(x), ..self },
        }
    }
}

/// Builder calls that set distinct attributes commute: only the final set
/// of attributes matters, not the order of the calls.
#[verifier::rlimit(100)]
pub proof fn lemma_simple_query_string_order_independent(m: SimpleQueryString, a: SimpleQueryStringCall, b: SimpleQueryStringCall)
    requires
        simple_query_string_call_idx(a) != simple_query_string_call_idx(b),
    ensures
        m.apply(a).apply(b) == m.apply(b).apply(a),
{
}

/// One builder call on this node, reified so that call order can be
/// spoken of.
pub enum TermCall {
    Boost(Decimal),
    CaseInsensitive(bool),
}

pub open spec fn term_call_idx(c: TermCall) -> int {
    match c {
        TermCall::Boost(_) => 0,
        TermCall::CaseInsensitive(_) => 1,
    }
}

impl Term {
    /// The value each builder call leaves behind, exactly as the call's
    /// contract states it.
    pub open spec fn apply(self, c: TermCall) -> Term {
        match c {
            TermCall::Boost(x) => Term { value: TermInner { boost: Some(x), ..self.value }, ..self },
            TermCall::CaseInsensitive(x) => Term { value: TermInner { case_insensitive: Some(x), ..self.value }, ..self },
        }
    }
}

/// Builder calls that set distinct attributes commute: only the final set
/// of attributes matters, not the order of the calls.
pub proof fn lemma_term_order_independent(m: Term, a: TermCall, b: TermCall)
    requires
        term_call_idx(a) != term_call_idx(b),
    ensures
        m.apply(a).apply(b) == m.apply(b).apply(a),
{
}

/// One builder call on this node, reified so that call order can be
/// spoken of.
pub enum ExistsCall {
    Field(String),
    Boost(Decimal),
}

pub open spec fn exists_call_idx(c: ExistsCall) -> int {
    match c {
        ExistsCall::Field(_) => 0,
        ExistsCall::Boost(_) => 1,
    }
}

impl Exists {
    /// The value each builder call leaves behind, exactly as the call's
    /// contract states it.
    pub open spec fn apply(self, c: ExistsCall) -> Exists {
        match c {
            ExistsCall::Field(x) => Exists { field: x, ..self },
            ExistsCall::Boost(x) => Exists { boost: Some(x), ..self },
        }
    }
}

/// Builder calls that set distinct attributes commute: only the final set
/// of attributes matters, not the order of the calls.
pub proof fn lemma_exists_order_independent(m: Exists, a: ExistsCall, b: ExistsCall)
    requires
        exists_call_idx(a) != exists_call_idx(b),
    ensures
        m.apply(a).apply(b) == m.apply(b).apply(a),
{
}

/// One builder call on this node, reified so that call order can be
/// spoken of.
pub enum IDsCall {
    Values(Vec<TermType>),
    Boost(Decimal),
}

pub open spec fn i_ds_call_idx(c: IDsCall) -> int {
    match c {
        IDsCall::Values(_) => 0,
        IDsCall::Boost(_) => 1,
    }
}

impl IDs {
    /// The value each builder call leaves behind, exactly as the call's
    /// contract states it.
    pub open spec fn apply(self, c: IDsCall) -> IDs {
        match c {
            IDsCall::Values(x) => IDs { values: x, ..self },
            IDsCall::Boost(x) => IDs { boost: Some(x), ..self },
        }
    }
}

/// Builder calls that set distinct attributes commute: only the final set
/// of attributes matters, not the order of the calls.
pub proof fn lemma_i_ds_order_independent(m: IDs, a: IDsCall, b: IDsCall)
    requires
        i_ds_call_idx(a) != i_ds_call_idx(b),
    ensures
        m.apply(a).apply(b) == m.apply(b).apply(a),
{
}

/// One builder call on this node, reified so that call order can be
/// spoken of.
pub enum FuzzyCall {
    Field(String),
    Value(String),
    Boost(Decimal),
    Fuzziness(Fuzziness),
    MaxExpansions(u64),
    PrefixLength(u64),
    Rewrite(Rewrite),
    Transpositions(bool),
}

pub open spec fn fuzzy_call_idx(c: FuzzyCall) -> int {
    match c {
        FuzzyCall::Field(_) => 0,
        FuzzyCall::Value(_) => 1,
        FuzzyCall::Boost(_) => 2,
        FuzzyCall::Fuzziness(_) => 3,
        FuzzyCall::MaxExpansions(_) => 4,
        FuzzyCall::PrefixLength(_) => 5,
        FuzzyCall::Rewrite(_) => 6,
        FuzzyCall::Transpositions(_) => 7,
    }
}

impl Fuzzy {
    /// The value each builder call leaves behind, exactly as the call's
    /// contract states it.
    pub open spec fn apply(self, c: FuzzyCall) -> Fuzzy {
        match c {
            FuzzyCall::Field(x) => Fuzzy { field: Some(x), ..self },
            FuzzyCall::Value(x) => Fuzzy { value: FuzzyValue { value: x, ..self.value }, ..self },
            FuzzyCall::Boost(x) => Fuzzy { value: FuzzyValue { boost: Some(x), ..self.value }, ..self },
            FuzzyCall::Fuzziness(x) => Fuzzy { value: FuzzyValue { fuzziness: Some(x), ..self.value }, ..self },
            FuzzyCall::MaxExpansions(x) => Fuzzy { value: FuzzyValue { max_expansions: Some(x), ..self.value }, ..self },
            FuzzyCall::PrefixLength(x) => Fuzzy { value: FuzzyValue { prefix_length: Some(x), ..self.value }, ..self },
            FuzzyCall::Rewrite(x) => Fuzzy { value: FuzzyValue { rewrite: Some(x), ..self.value }, ..self },
            FuzzyCall::Transpositions(x) => Fuzzy { value: FuzzyValue { transpositions: Some(x), ..self.value }, ..self },
        }
    }
}

/// Builder calls that set distinct attributes commute: only the final set
/// of attributes matters, not the order of the calls.
pub proof fn lemma_fuzzy_order_independent(m: Fuzzy, a: FuzzyCall, b: FuzzyCall)
    requires
        fuzzy_call_idx(a) != fuzzy_call_idx(b),
    ensures
        m.apply(a).apply(b) == m.apply(b).apply(a),
{
}

/// One builder call on this node, reified so that call order can be
/// spoken of.
pub enum PrefixCall {
    Field(String),
    Value(String),
    Boost(Decimal),
    CaseInsensitive(bool),
    Rewrite(Rewrite),
}

pub open spec fn prefix_call_idx(c: PrefixCall) -> int {
    match c {
        PrefixCall::Field(_) => 0,
        PrefixCall::Value(_) => 1,
        PrefixCall::Boost(_) => 2,
        PrefixCall::CaseInsensitive(_) => 3,
        PrefixCall::Rewrite(_) => 4,
    }
}

impl Prefix {
    /// The value each builder call leaves behind, exactly as the call's
    /// contract states it.
    pub open spec fn apply(self, c: PrefixCall) -> Prefix {
        match c {
            PrefixCall::Field(x) => Prefix { field: Some(x), ..self },
            PrefixCall::Value(x) => Prefix { value: PrefixValue { value: x, ..self.value }, ..self },
            PrefixCall::Boost(x) => Prefix { value: PrefixValue { boost: Some(x), ..self.value }, ..self },
            PrefixCall::CaseInsensitive(x) => Prefix { value: PrefixValue { case_insensitive: Some(x), ..self.value }, ..self },
            PrefixCall::Rewrite(x) => Prefix { value: PrefixValue { rewrite: Some(x), ..self.value }, ..self },
        }
    }
}

/// Builder calls that set distinct attributes commute: only the final set
/// of attributes matters, not the order of the calls.
pub proof fn lemma_prefix_order_independent(m: Prefix, a: PrefixCall, b: PrefixCall)
    requires
        prefix_call_idx(a) != prefix_call_idx(b),
    ensures
        m.apply(a).apply(b) == m.apply(b).apply(a),
{
}

/// One builder call on this node, reified so that call order can be
/// spoken of.
pub enum WildcardCall {
    Field(String),
    Value(String),
    Boost(Decimal),
    CaseInsensitive(bool),
    Rewrite(Rewrite),
}

pub open spec fn wildcard_call_idx(c: WildcardCall) -> int {
    match c {
        WildcardCall::Field(_) => 0,
        WildcardCall::Value(_) => 1,
        WildcardCall::Boost(_) => 2,
        WildcardCall::CaseInsensitive(_) => 3,
        WildcardCall::Rewrite(_) => 4,
    }
}

impl Wildcard {
    /// The value each builder call leaves behind, exactly as the call's
    /// contract states it.
    pub open spec fn apply(self, c: WildcardCall) -> Wildcard {
        match c {
            WildcardCall::Field(x) => Wildcard { field: Some(x), ..self },
            WildcardCall::Value(x) => Wildcard { value: WildcardValue { value: x, ..self.value }, ..self },
            WildcardCall::Boost(x) => Wildcard { value: WildcardValue { boost: Some(x), ..self.value }, ..self },
            WildcardCall::CaseInsensitive(x) => Wildcard { value: WildcardValue { case_insensitive: Some(x), ..self.value }, ..self },
            WildcardCall::Rewrite(x) => Wildcard { value: WildcardValue { rewrite: Some(x), ..self.value }, ..self },
        }
    }
}

/// Builder calls that set distinct attributes commute: only the final set
/// of attributes matters, not the order of the calls.
pub proof fn lemma_wildcard_order_independent(m: Wildcard, a: WildcardCall, b: WildcardCall)
    requires
        wildcard_call_idx(a) != wildcard_call_idx(b),
    ensures
        m.apply(a).apply(b) == m.apply(b).apply(a),
{
}

/// One builder call on this node, reified so that call order can be
/// spoken of.
pub enum RegexpCall {
    Field(String),
    Value(String),
    Boost(Decimal),
    CaseInsensitive(bool),
    MaxDeterminizedStates(u64),
    Rewrite(Rewrite),
    Flags(RegexpFlag),
}

pub open spec fn regexp_call_idx(c: RegexpCall) -> int {
    match c {
        RegexpCall::Field(_) => 0,
        RegexpCall::Value(_) => 1,
        RegexpCall::Boost(_) => 2,
        RegexpCall::CaseInsensitive(_) => 3,
        RegexpCall::MaxDeterminizedStates(_) => 4,
        RegexpCall::Rewrite(_) => 5,
        RegexpCall::Flags(_) => 6,
    }
}

impl Regexp {
    /// The value each builder call leaves behind, exactly as the call's
    /// contract states it.
    pub open spec fn apply(self, c: RegexpCall) -> Regexp {
        match c {
            RegexpCall::Field(x) => Regexp { field: Some(x), ..self },
            RegexpCall::Value(x) => Regexp { value: RegexpValue { value: x, ..self.value }, ..self },
            RegexpCall::Boost(x) => Regexp { value: RegexpValue { boost: Some(x), ..self.value }, ..self },
            RegexpCall::CaseInsensitive(x) => Regexp { value: RegexpValue { case_insensitive: Some(x), ..self.value }, ..self },
            RegexpCall::MaxDeterminizedStates(x) => Regexp { value: RegexpValue { max_determinized_states: Some(x), ..self.value }, ..self },
            RegexpCall::Rewrite(x) => Regexp { value: RegexpValue { rewrite: Some(x), ..self.value }, ..self },
            RegexpCall::Flags(x) => Regexp { value: RegexpValue { flags: Some(x), ..self.value }, ..self },
        }
    }
}

/// Builder calls that set distinct attributes commute: only the final set
/// of attributes matters, not the order of the calls.
pub proof fn lemma_regexp_order_independent(m: Regexp, a: RegexpCall, b: RegexpCall)
    requires
        regexp_call_idx(a) != regexp_call_idx(b),
    ensures
        m.apply(a).apply(b) == m.apply(b).apply(a),
{
}

/// One builder call on this node, reified so that call order can be
/// spoken of.
pub enum RangeCall {
    Field(String),
    Gt(TermType),
    Gte(TermType),
    Lt(TermType),
    Lte(TermType),
    TimeZone(String),
    Format(String),
    Boost(Decimal),
    Relation(Relation),
}

pub open spec fn range_call_idx(c: RangeCall) -> int {
    match c {
        RangeCall::Field(_) => 0,
        RangeCall::Gt(_) => 1,
        RangeCall::Gte(_) => 2,
        RangeCall::Lt(_) => 3,
        RangeCall::Lte(_) => 4,
        RangeCall::TimeZone(_) => 5,
        RangeCall::Format(_) => 6,
        RangeCall::Boost(_) => 7,
        RangeCall::Relation(_) => 8,
    }
}

impl Range {
    /// The value each builder call leaves behind, exactly as the call's
    /// contract states it.
    pub open spec fn apply(self, c: RangeCall) -> Range {
        match c {
            RangeCall::Field(x) => Range { field: Some(x), ..self },
            RangeCall::Gt(x) => Range { value: RangeValue { gt: Some(x), ..self.value }, ..self },
            RangeCall::Gte(x) => Range { value: RangeValue { gte: Some(x), ..self.value }, ..self },
            RangeCall::Lt(x) => Range { value: RangeValue { lt: Some(x), ..self.value }, ..self },
            RangeCall::Lte(x) => Range { value: RangeValue { lte: Some(x), ..self.value }, ..self },
            RangeCall::TimeZone(x) => Range { value: RangeValue { time_zone: Some(x), ..self.value }, ..self },
            RangeCall::Format(x) => Range { value: RangeValue { format: Some(x), ..self.value }, ..self },
            RangeCall::Boost(x) => Range { value: RangeValue { boost: Some(x), ..self.value }, ..self },
            RangeCall::Relation(x) => Range { value: RangeValue { relation: Some(x), ..self.value }, ..self },
        }
    }
}

/// Builder calls that set distinct attributes commute: only the final set
/// of attributes matters, not the order of the calls.
pub proof fn lemma_range_order_independent(m: Range, a: RangeCall, b: RangeCall)
    requires
        range_call_idx(a) != range_call_idx(b),
    ensures
        m.apply(a).apply(b) == m.apply(b).apply(a),
{
}

/// One builder call on this node, reified so that call order can be
/// spoken of.
pub enum BoolCall {
    Must(Vec<QueryField>),
    MustNot(Vec<QueryField>),
    Filter(Vec<QueryField>),
    Should(Vec<QueryField>),
    MinimumShouldMatch(usize),
}

pub open spec fn bool_call_idx(c: BoolCall) -> int {
    match c {
        BoolCall::Must(_) => 0,
        BoolCall::MustNot(_) => 1,
        BoolCall::Filter(_) => 2,
        BoolCall::Should(_) => 3,
        BoolCall::MinimumShouldMatch(_) => 4,
    }
}

impl Bool {
    /// The value each builder call leaves behind, exactly as the call's
    /// contract states it.
    pub open spec fn apply(self, c: BoolCall) -> Bool {
        match c {
            BoolCall::Must(x) => Bool { must: Some(x), ..self },
            BoolCall::MustNot(x) => Bool { must_not: Some(x), ..self },
            BoolCall::Filter(x) => Bool { filter: Some(x), ..self },
            BoolCall::Should(x) => Bool { should: Some(x), ..self },
            BoolCall::MinimumShouldMatch(x) => Bool { minimum_should_match: Some(x), ..self },
        }
    }
}

/// Builder calls that set distinct attributes commute: only the final set
/// of attributes matters, not the order of the calls.
pub proof fn lemma_bool_order_independent(m: Bool, a: BoolCall, b: BoolCall)
    requires
        bool_call_idx(a) != bool_call_idx(b),
    ensures
        m.apply(a).apply(b) == m.apply(b).apply(a),
{
}

/// One builder call on this node, reified so that call order can be
/// spoken of.
pub enum ScriptCall {
    Source(String),
    Lang(String),
}

pub open spec fn script_call_idx(c: ScriptCall) -> int {
    match c {
        ScriptCall::Source(_) => 0,
        ScriptCall::Lang(_) => 1,
    }
}

impl Script {
    /// The value each builder call leaves behind, exactly as the call's
    /// contract states it.
    pub open spec fn apply(self, c: ScriptCall) -> Script {
        match c {
            ScriptCall::Source(x) => Script { source: x, ..self },
            ScriptCall::Lang(x) => Script { lang: Some(x), ..self },
        }
    }
}

/// Builder calls that set distinct attributes commute: only the final set
/// of attributes matters, not the order of the calls.
pub proof fn lemma_script_order_independent(m: Script, a: ScriptCall, b: ScriptCall)
    requires
        script_call_idx(a) != script_call_idx(b),
    ensures
        m.apply(a).apply(b) == m.apply(b).apply(a),
{
}

/// One builder call on this node, reified so that call order can be
/// spoken of.
pub enum MatchRuleCall {
    Query(String),
    Analyzer(String),
    MaxGaps(i64),
    Ordered(bool),
    UseField(String),
    Filter(Box<FilterRule>),
}

pub open spec fn match_rule_call_idx(c: MatchRuleCall) -> int {
    match c {
        MatchRuleCall::Query(_) => 0,
        MatchRuleCall::Analyzer(_) => 1,
        MatchRuleCall::MaxGaps(_) => 2,
        MatchRuleCall::Ordered(_) => 3,
        MatchRuleCall::UseField(_) => 4,
        MatchRuleCall::Filter(_) => 5,
    }
}

impl MatchRule {
    /// The value each builder call leaves behind, exactly as the call's
    /// contract states it.
    pub open spec fn apply(self, c: MatchRuleCall) -> MatchRule {
        match c {
            MatchRuleCall::Query(x) => MatchRule { query: x, ..self },
            MatchRuleCall::Analyzer(x) => MatchRule { analyzer: Some(x), ..self },
            MatchRuleCall::MaxGaps(x) => MatchRule { max_gaps: Some(x), ..self },
            MatchRuleCall::Ordered(x) => MatchRule { ordered: Some(x), ..self },
            MatchRuleCall::UseField(x) => MatchRule { use_field: Some(x), ..self },
            MatchRuleCall::Filter(x) => MatchRule { filter: Some(x), ..self },
        }
    }
}

/// Builder calls that set distinct attributes commute: only the final set
/// of attributes matters, not the order of the calls.
pub proof fn lemma_match_rule_order_independent(m: MatchRule, a: MatchRuleCall, b: MatchRuleCall)
    requires
        match_rule_call_idx(a) != match_rule_call_idx(b),
    ensures
        m.apply(a).apply(b) == m.apply(b).apply(a),
{
}

/// One builder call on this node, reified so that call order can be
/// spoken of.
pub enum PrefixRuleCall {
    Prefix(String),
    Analyzer(String),
    UseField(String),
}

pub open spec fn prefix_rule_call_idx(c: PrefixRuleCall) -> int {
    match c {
        PrefixRuleCall::Prefix(_) => 0,
        PrefixRuleCall::Analyzer(_) => 1,
        PrefixRuleCall::UseField(_) => 2,
    }
}

impl PrefixRule {
    /// The value each builder call leaves behind, exactly as the call's
    /// contract states it.
    pub open spec fn apply(self, c: PrefixRuleCall) -> PrefixRule {
        match c {
            PrefixRuleCall::Prefix(x) => PrefixRule { prefix: x, ..self },
            PrefixRuleCall::Analyzer(x) => PrefixRule { analyzer: Some(x), ..self },
            PrefixRuleCall::UseField(x) => PrefixRule { use_field: Some(x), ..self },
        }
    }
}

/// Builder calls that set distinct attributes commute: only the final set
/// of attributes matters, not the order of the calls.
pub proof fn lemma_prefix_rule_order_independent(m: PrefixRule, a: PrefixRuleCall, b: PrefixRuleCall)
    requires
        prefix_rule_call_idx(a) != prefix_rule_call_idx(b),
    ensures
        m.apply(a).apply(b) == m.apply(b).apply(a),
{
}

/// One builder call on this node, reified so that call order can be
/// spoken of.
pub enum WildcardRuleCall {
    Pattern(String),
    Analyzer(String),
    UseField(String),
}

pub open spec fn wildcard_rule_call_idx(c: WildcardRuleCall) -> int {
    match c {
        WildcardRuleCall::Pattern(_) => 0,
        WildcardRuleCall::Analyzer(_) => 1,
        WildcardRuleCall::UseField(_) => 2,
    }
}

impl WildcardRule {
    /// The value each builder call leaves behind, exactly as the call's
    /// contract states it.
    pub open spec fn apply(self, c: WildcardRuleCall) -> WildcardRule {
        match c {
            WildcardRuleCall::Pattern(x) => WildcardRule { pattern: x, ..self },
            WildcardRuleCall::Analyzer(x) => WildcardRule { analyzer: Some(x), ..self },
            WildcardRuleCall::UseField(x) => WildcardRule { use_field: Some(x), ..self },
        }
    }
}

/// Builder calls that set distinct attributes commute: only the final set
/// of attributes matters, not the order of the calls.
pub proof fn lemma_wildcard_rule_order_independent(m: WildcardRule, a: WildcardRuleCall, b: WildcardRuleCall)
    requires
        wildcard_rule_call_idx(a) != wildcard_rule_call_idx(b),
    ensures
        m.apply(a).apply(b) == m.apply(b).apply(a),
{
}

/// One builder call on this node, reified so that call order can be
/// spoken of.
pub enum FuzzyRuleCall {
    Term(String),
    Analyzer(String),
    Fuzziness(Fuzziness),
    Transpositions(bool),
    PrefixLength(i64),
    UseField(String),
}

pub open spec fn fuzzy_rule_call_idx(c: FuzzyRuleCall) -> int {
    match c {
        FuzzyRuleCall::Term(_) => 0,
        FuzzyRuleCall::Analyzer(_) => 1,
        FuzzyRuleCall::Fuzziness(_) => 2,
        FuzzyRuleCall::Transpositions(_) => 3,
        FuzzyRuleCall::PrefixLength(_) => 4,
        FuzzyRuleCall::UseField(_) => 5,
    }
}

impl FuzzyRule {
    /// The value each builder call leaves behind, exactly as the call's
    /// contract states it.
    pub open spec fn apply(self, c: FuzzyRuleCall) -> FuzzyRule {
        match c {
            FuzzyRuleCall::Term(x) => FuzzyRule { term: x, ..self },
            FuzzyRuleCall::Analyzer(x) => FuzzyRule { analyzer: Some(x), ..self },
            FuzzyRuleCall::Fuzziness(x) => FuzzyRule { fuzziness: Some(x), ..self },
            FuzzyRuleCall::Transpositions(x) => FuzzyRule { transpositions: Some(x), ..self },
            FuzzyRuleCall::PrefixLength(x) => FuzzyRule { prefix_length: Some(x), ..self },
            FuzzyRuleCall::UseField(x) => FuzzyRule { use_field: Some(x), ..self },
        }
    }
}

/// Builder calls that set distinct attributes commute: only the final set
/// of attributes matters, not the order of the calls.
pub proof fn lemma_fuzzy_rule_order_independent(m: FuzzyRule, a: FuzzyRuleCall, b: FuzzyRuleCall)
    requires
        fuzzy_rule_call_idx(a) != fuzzy_rule_call_idx(b),
    ensures
        m.apply(a).apply(b) == m.apply(b).apply(a),
{
}

/// One builder call on this node, reified so that call order can be
/// spoken of.
pub enum AllOfRuleCall {
    Intervals(Vec<IntervalRule>),
    Filter(Box<FilterRule>),
    MaxGaps(i64),
    Ordered(bool),
}

pub open spec fn all_of_rule_call_idx(c: AllOfRuleCall) -> int {
    match c {
        AllOfRuleCall::Intervals(_) => 0,
        AllOfRuleCall::Filter(_) => 1,
        AllOfRuleCall::MaxGaps(_) => 2,
        AllOfRuleCall::Ordered(_) => 3,
    }
}

impl AllOfRule {
    /// The value each builder call leaves behind, exactly as the call's
    /// contract states it.
    pub open spec fn apply(self, c: AllOfRuleCall) -> AllOfRule {
        match c {
            AllOfRuleCall::Intervals(x) => AllOfRule { interval: x, ..self },
            AllOfRuleCall::Filter(x) => AllOfRule { filter: Some(x), ..self },
            AllOfRuleCall::MaxGaps(x) => AllOfRule { max_gaps: Some(x), ..self },
            AllOfRuleCall::Ordered(x) => AllOfRule { ordered: Some(x), ..self },
        }
    }
}

/// Builder calls that set distinct attributes commute: only the final set
/// of attributes matters, not the order of the calls.
pub proof fn lemma_all_of_rule_order_independent(m: AllOfRule, a: AllOfRuleCall, b: AllOfRuleCall)
    requires
        all_of_rule_call_idx(a) != all_of_rule_call_idx(b),
    ensures
        m.apply(a).apply(b) == m.apply(b).apply(a),
{
}

/// One builder call on this node, reified so that call order can be
/// spoken of.
pub enum AnyOfRuleCall {
    Intervals(Vec<IntervalRule>),
    Filter(Box<FilterRule>),
}

pub open spec fn any_of_rule_call_idx(c: AnyOfRuleCall) -> int {
    match c {
        AnyOfRuleCall::Intervals(_) => 0,
        AnyOfRuleCall::Filter(_) => 1,
    }
}

impl AnyOfRule {
    /// The value each builder call leaves behind, exactly as the call's
    /// contract states it.
    pub open spec fn apply(self, c: AnyOfRuleCall) -> AnyOfRule {
        match c {
            AnyOfRuleCall::Intervals(x) => AnyOfRule { interval: x, ..self },
            AnyOfRuleCall::Filter(x) => AnyOfRule { filter: Some(x), ..self },
        }
    }
}

/// Builder calls that set distinct attributes commute: only the final set
/// of attributes matters, not the order of the calls.
pub proof fn lemma_any_of_rule_order_independent(m: AnyOfRule, a: AnyOfRuleCall, b: AnyOfRuleCall)
    requires
        any_of_rule_call_idx(a) != any_of_rule_call_idx(b),
    ensures
        m.apply(a).apply(b) == m.apply(b).apply(a),
{
}

/// One builder call on this node, reified so that call order can be
/// spoken of.
pub enum IntervalsCall {
    Field(String),
    Rule(IntervalRule),
}

pub open spec fn intervals_call_idx(c: IntervalsCall) -> int {
    match c {
        IntervalsCall::Field(_) => 0,
        IntervalsCall::Rule(_) => 1,
    }
}

impl Intervals {
    /// The value each builder call leaves behind, exactly as the call's
    /// contract states it.
    pub open spec fn apply(self, c: IntervalsCall) -> Intervals {
        match c {
            IntervalsCall::Field(x) => Intervals { field: Some(x), ..self },
            IntervalsCall::Rule(x) => Intervals { value: Some(x), ..self },
        }
    }
}

/// Builder calls that set distinct attributes commute: only the final set
/// of attributes matters, not the order of the calls.
pub proof fn lemma_intervals_order_independent(m: Intervals, a: IntervalsCall, b: IntervalsCall)
    requires
        intervals_call_idx(a) != intervals_call_idx(b),
    ensures
        m.apply(a).apply(b) == m.apply(b).apply(a),
{
}

/// One builder call on this node, reified so that call order can be
/// spoken of.
pub enum QueryCall {
    From(usize),
    Size(usize),
    Source(Vec<String>),
    Tree(QueryField),
    Aggs(Json),
}

pub open spec fn query_call_idx(c: QueryCall) -> int {
    match c {
        QueryCall::From(_) => 0,
        QueryCall::Size(_) => 1,
        QueryCall::Source(_) => 2,
        QueryCall::Tree(_) => 3,
        QueryCall::Aggs(_) => 4,
    }
}

impl Query {
    /// The value each builder call leaves behind, exactly as the call's
    /// contract states it.
    pub open spec fn apply(self, c: QueryCall) -> Query {
        match c {
            QueryCall::From(x) => Query { from: Some(x), ..self },
            QueryCall::Size(x) => Query { size: Some(x), ..self },
            QueryCall::Source(x) => Query { source: Some(x), ..self },
            QueryCall::Tree(x) => Query { query: Some(x), ..self },
            QueryCall::Aggs(x) => Query { aggs: Some(x), ..self },
        }
    }
}

/// Builder calls that set distinct attributes commute: only the final set
/// of attributes matters, not the order of the calls.
pub proof fn lemma_query_order_independent(m: Query, a: QueryCall, b: QueryCall)
    requires
        query_call_idx(a) != query_call_idx(b),
    ensures
        m.apply(a).apply(b) == m.apply(b).apply(a),
{
}

/// One builder call on a terms-set query.  The two minimum-should-match
/// calls are not disjoint: each clears the other's slot, so order
/// independence is stated for every other pair.
pub enum TermsSetCall {
    Field(String),
    MinimumShouldMatchField(String),
    MinimumShouldMatchScript(Script),
    TermsList(Vec<String>),
    Boost(Decimal),
}

pub open spec fn terms_set_call_idx(c: TermsSetCall) -> int {
    match c {
        TermsSetCall::Field(_) => 0,
        TermsSetCall::MinimumShouldMatchField(_) => 1,
        TermsSetCall::MinimumShouldMatchScript(_) => 2,
        TermsSetCall::TermsList(_) => 3,
        TermsSetCall::Boost(_) => 4,
    }
}

impl TermsSet {
    /// The value each builder call leaves behind, exactly as the call's
    /// contract states it.
    pub open spec fn apply(self, c: TermsSetCall) -> TermsSet {
        match c {
            TermsSetCall::Field(x) => TermsSet { field: Some(x), ..self },
            TermsSetCall::MinimumShouldMatchField(x) => TermsSet {
                value: TermsSetValue {
                    minimum_should_match_field: Some(x),
                    minimum_should_match_script: None,
                    ..self.value
                },
                ..self
            },
            TermsSetCall::MinimumShouldMatchScript(x) => TermsSet {
                value: TermsSetValue {
                    minimum_should_match_script: Some(x),
                    minimum_should_match_field: None,
                    ..self.value
                },
                ..self
            },
            TermsSetCall::TermsList(x) => TermsSet {
                value: TermsSetValue { terms: x, ..self.value },
                ..self
            },
            TermsSetCall::Boost(x) => TermsSet {
                value: TermsSetValue { boost: Some(x), ..self.value },
                ..self
            },
        }
    }
}

/// Builder calls that set distinct attributes of a terms-set query
/// commute.  The two minimum-should-match calls are excluded: setting the
/// field form after the script form leaves the field, and the reverse
/// leaves the script.
pub proof fn lemma_terms_set_order_independent(m: TermsSet, a: TermsSetCall, b: TermsSetCall)
    requires
        terms_set_call_idx(a) != terms_set_call_idx(b),
        !(terms_set_call_idx(a) == 1 && terms_set_call_idx(b) == 2),
        !(terms_set_call_idx(a) == 2 && terms_set_call_idx(b) == 1),
    ensures
        m.apply(a).apply(b) == m.apply(b).apply(a),
{
}

/// A boost added to a terms query in either mode appends exactly one
/// sibling entry and leaves the mode's own entry unchanged.
pub proof fn lemma_terms_boost_sibling(t: crate::term::terms::Terms, d: Decimal)
    requires
        t.boost is None,
    ensures
        t.jval() matches JVal::Obj(es) && (crate::term::terms::Terms {
            boost: Some(d),
            ..t
        }).jval() matches JVal::Obj(es2) && es2 == es.push(("boost"@, JVal::Num(d))),
{
}

/// The same duality for the terms query over plain string values.
pub proof fn lemma_text_terms_boost_sibling(t: crate::full_text::terms::Terms, d: Decimal)
    requires
        t.boost is None,
    ensures
        t.jval() matches JVal::Obj(es) && (crate::full_text::terms::Terms {
            boost: Some(d),
            ..t
        }).jval() matches JVal::Obj(es2) && es2 == es.push(("boost"@, JVal::Num(d))),
{
}

/// An unset boost stays off the wire for a terms query, whichever mode is
/// active, as long as the queried field is not itself named `boost`.
pub proof fn lemma_terms_omits_unset_boost(t: crate::term::terms::Terms)
    requires
        t.boost is None,
        t.field@ != "boost"@,
    ensures
        !has_key(present(t.slots()), "boost"@),
{
    let s = t.slots();
    assert(s.len() == 2);
    lemma_present_omits_at(s, 1);
}

/// The same omission for the terms query over plain string values.
pub proof fn lemma_text_terms_omits_unset_boost(t: crate::full_text::terms::Terms)
    requires
        t.boost is None,
        t.field@ != "boost"@,
    ensures
        !has_key(present(t.slots()), "boost"@),
{
    let s = t.slots();
    assert(s.len() == 2);
    lemma_present_omits_at(s, 1);
}

/// A boolean compound always serializes under the single tag `bool` with
/// its own attribute object, at any depth: the entry of the wrapped node
/// is the node's own rendering.
pub proof fn lemma_bool_nesting_uniform(b: Bool)
    ensures
        QueryField::Bool(b).jval() matches JVal::Obj(es) && es.len() == 1 && es[0].0 == "bool"@
            && es[0].1 == b.jval(),
{
}

/// Each clause of a compound's list serializes exactly as it would on its
/// own: nesting never changes a node's rendered shape.
pub proof fn lemma_clause_items_keep_shape(s: Seq<QueryField>)
    ensures
        qf_list_jval(s).len() == s.len(),
        forall|i: int| 0 <= i < s.len() ==> qf_list_jval(s)[i] == s[i].jval(),
    decreases s,
{
    if s.len() > 0 {
        lemma_clause_items_keep_shape(s.drop_last());
    }
}

/// The same compositionality for the interval grammar's rule lists.
pub proof fn lemma_interval_items_keep_shape(s: Seq<IntervalRule>)
    ensures
        rule_list_jval(s).len() == s.len(),
        forall|i: int| 0 <= i < s.len() ==> rule_list_jval(s)[i] == s[i].jval(),
    decreases s,
{
    if s.len() > 0 {
        lemma_interval_items_keep_shape(s.drop_last());
    }
}

/// An aggregation node also serializes as a single-entry object under its
/// name, wrapping its payload under the fixed tag `terms`.
pub proof fn lemma_aggregates_single_field_key(x: crate::query::aggs::Aggregates)
    ensures
        x.jval() matches JVal::Obj(es) && es.len() == 1 && es[0].0 == x.field@,
{
}

} // verus!
