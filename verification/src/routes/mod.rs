//! API route handlers.

pub mod health_check;
