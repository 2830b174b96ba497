//! A relay node of a simulated packet-switched overlay network.

pub mod drone;
pub mod event;
pub mod laws;
pub mod loss;
pub mod model;
pub mod packet;
pub mod port;
