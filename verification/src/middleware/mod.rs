pub mod auth_middleware;
pub mod authorization_middleware;
pub mod chain;
