//! A fixed-capacity object pool addressed by small integer handles.

pub mod laws;
pub mod pool;

pub use pool::{StaticPool, StaticPoolHandle};
