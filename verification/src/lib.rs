//! Verified core of the employee hub service: one-time-password login,
//! token claims, bulk CSV planning, error responses and e-mail composition.

pub mod decimal;
pub mod otp_store;
pub mod json;
pub mod errors;
pub mod models;
pub mod config;
pub mod clock;
pub mod auth;
pub mod bulk;
pub mod email;
