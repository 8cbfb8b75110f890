pub mod aggs;
