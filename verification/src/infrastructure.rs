//! Storage bindings of the repository contracts, and the row-level
//! converters between store models and entities.

pub mod converter;
pub mod converter_impl;
pub mod memory;
