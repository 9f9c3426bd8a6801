pub mod auth;
pub mod exchange;
pub mod handlers;
pub mod state;
pub mod templates;
pub mod router;
pub mod laws;
