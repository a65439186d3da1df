pub mod lifecycle;
pub mod state;
