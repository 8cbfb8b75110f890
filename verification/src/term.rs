pub mod exists_query;
pub mod fuzzy;
pub mod ids;
pub mod prefix;
pub mod range;
pub mod regexp;
pub mod term;
pub mod term_type;
pub mod terms;
pub mod terms_set;
pub mod wildcard;
