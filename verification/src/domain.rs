//! The domain layer: value objects, entities, repository contracts and
//! domain service contracts.

pub mod entities;
pub mod services;
pub mod repositories;
pub mod values;
