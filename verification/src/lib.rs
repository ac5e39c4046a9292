//! Redis support for the `r2d2` connection pool: the decisions a pool manager
//! makes about Redis connections, stated and proved apart from the sockets
//! they are made about.

pub mod error;
pub mod manager;
pub mod target;

pub use error::Error;
pub use manager::RedisConnectionManager;
