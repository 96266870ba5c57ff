pub mod assign_flow;
pub mod models;
pub mod repository;
pub mod service;
