//! Domain core of a small e-commerce backend: self-validating value objects,
//! entities with identity operations, repository contracts over an opaque
//! transaction handle, transactional domain services, boundary forms and
//! transfer objects.
//!
//! Every value object validates its raw input once, at construction; after
//! that the rest of the crate can rely on its validity. Domain services
//! compose repository calls and translate persistence failures into the
//! domain error taxonomy of [`error::AppError`].

pub mod app_commons;
pub mod application;
pub mod domain;
pub mod error;
pub mod infrastructure;
pub mod presentation;
pub mod service;
pub mod text;
