pub mod commands;
pub mod errors;
pub mod model;
pub mod protocol;
pub mod query;
pub mod symbols;
