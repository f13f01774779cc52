//! Verified core of the NodeGaze backend: data models, validation rules,
//! filtering, event shaping and the decisions of the account, invite,
//! notification and authentication services.

pub mod auth;
pub mod auth_steps;
pub mod clock;
pub mod config;
pub mod email;
pub mod errors;
pub mod events;
pub mod filters;
pub mod http;
pub mod jwt;
pub mod models;
pub mod price;
pub mod services;
pub mod text;
pub mod validation;
