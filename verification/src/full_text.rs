pub mod match_boolean_prefix;
pub mod match_phrase;
pub mod match_phrase_prefix;
pub mod match_query;
pub mod multi_match;
pub mod query_string;
pub mod simple_query_string;
pub mod terms;
