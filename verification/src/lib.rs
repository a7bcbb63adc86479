//! Domain model, authorization and persistence mapping of the problem service.
pub mod conn_pool;
pub mod error;
pub mod initializer;
pub mod jwt_handler;
pub mod model;
pub mod problem_repo;
pub mod service;
pub mod web;
pub mod wrapper;
