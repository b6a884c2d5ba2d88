pub mod auth;
pub mod constants;
