//! The service's own endpoints: health, and the plain login form.

pub mod health;
pub mod oauth;
