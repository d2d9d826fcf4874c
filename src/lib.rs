//! Generation of typed declarations from a relational schema description.

pub mod generator;
pub mod laws;
pub mod naming;
pub mod schema;
pub mod snippet;
pub mod text;
pub mod types;
