pub mod text;
pub mod clock;
pub mod config;
pub mod model;
pub mod agent;
pub mod app;
pub mod worker;
pub mod service;
pub mod telemetry;
pub mod repository;
