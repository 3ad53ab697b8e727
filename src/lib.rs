//! Structured prompting over completion providers: typed field schemas are
//! rendered into prompt text by an adapter, and completion text is parsed
//! back into a record of output fields.

pub mod json;
pub mod text;
pub mod schema;
pub mod sections;
pub mod braces;
pub mod render;
pub mod adapters;
pub mod models;
pub mod generate;
pub mod specials;
pub mod laws;
pub mod roundtrip;
