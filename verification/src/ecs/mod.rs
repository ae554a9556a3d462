//! ECS-side data types and the decisions made on them.

pub mod app;
pub mod drag;
pub mod graphics;
pub mod layout;
pub mod pointer;
