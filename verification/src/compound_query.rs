pub mod boolean;
pub mod boosting;
pub mod constant_score;
pub mod disjunction_max;
