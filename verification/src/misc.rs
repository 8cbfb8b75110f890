pub mod fuzziness;
pub mod operator;
pub mod query_field;
pub mod query_type;
pub mod regexp_flag;
pub mod relation;
pub mod rewrite;
pub mod script;
pub mod zero_terms_query;
