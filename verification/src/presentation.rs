//! The presentation boundary: input forms and token-claim generation.

pub mod forms;
pub mod jwt;
