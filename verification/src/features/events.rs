pub mod bulk_flow;
pub mod create_flow;
pub mod models;
pub mod repository;
pub mod service;
