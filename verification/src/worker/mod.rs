pub mod dispatcher;
pub mod pool;
