//! A typed builder for a search engine's query language.  Query nodes are
//! assembled by consuming builder calls, gathered into one polymorphic sum
//! type, and rendered into the exact nested wire document: every field name
//! becomes a key, every unset optional attribute is omitted, and every enum
//! token is cased as the wire format demands.  The rendering is verified:
//! each node carries a ghost model of the document it produces, and the
//! renderer's output is proved equal to that model's text.
pub mod compound_query;
pub mod full_text;
pub mod intervals;
pub mod json;
pub mod laws;
pub mod misc;
pub mod model;
pub mod query;
pub mod term;
