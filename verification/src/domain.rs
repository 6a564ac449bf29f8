//! The domain: its model and the ports through which it reaches the world.

pub mod model;
pub mod port;
