pub mod all_of;
pub mod any_of;
pub mod filter;
pub mod fuzzy;
pub mod interval;
pub mod interval_rule;
pub mod match_rule;
pub mod prefix;
pub mod wildcard;
