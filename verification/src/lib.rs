pub mod demo;
pub mod errors;
pub mod laws;
pub mod memory_repository;
pub mod repository_trait;
pub mod rows;
pub mod service_trait;
pub mod user_model;
pub mod user_service;
