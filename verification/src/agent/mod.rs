pub mod bootstrap;
pub mod registry;
pub mod payload;
pub mod command_handler;
pub mod command_ledger;
pub mod frames;
pub mod registration;
pub mod telemetry;
