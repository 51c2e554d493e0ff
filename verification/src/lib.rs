//! Request validation, model-kind rules and the in-memory fit session behind an
//! agent-facing API for mixed-effects models.

pub mod error;
pub mod text;
pub mod model;
pub mod dto;
pub mod validate;
pub mod session;
pub mod api;
pub mod data;
pub mod laws;
pub mod rules;
