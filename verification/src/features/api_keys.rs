pub mod auth;
pub mod auth_flow;
pub mod create_flow;
pub mod crypto;
pub mod manage_flow;
pub mod models;
pub mod repository;
pub mod service;
