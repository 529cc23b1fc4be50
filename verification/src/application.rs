//! The application layer: use-case orchestration over the domain services.

pub mod app_service;
pub mod use_cases;
