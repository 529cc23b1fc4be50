//! Shapes shared between the application layer and the presentation
//! boundary.

pub mod transfers;
