//! Verified core of a gateway between HMS micro-inverters and an MQTT broker.

pub mod bytes;
pub mod capabilities;
pub mod clock;
pub mod course;
pub mod crypto;
pub mod error;
pub mod frame;
pub mod inverter;
pub mod laws;
pub mod protos;
pub mod requests;
pub mod session;
pub mod simple_mqtt;
pub mod telemetry;
pub mod text;
