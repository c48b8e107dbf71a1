//! Credential, session and CSRF core of a workout tracker service.
//!
//! Records carry timestamps as milliseconds since the Unix epoch. Expired
//! records are treated as absent by every lookup.

pub mod clock;
pub mod models;
mod seq_filter;
pub mod entropy;
pub mod password;
pub mod auth_repository;
pub mod http;
pub mod csrf_gate;
pub mod session_gate;
pub mod auth_routes;
pub mod user_routes;
pub mod general;
pub mod resources;
pub mod workout_exercises;
pub mod resource_routes;
