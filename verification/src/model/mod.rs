pub mod host;
