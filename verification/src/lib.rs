//! Device and event bridge core: the rules behind device discovery and
//! control, hot-plug monitoring, telemetry aggregation and the remote
//! session bridge, stated over plain values and proved.

pub mod bridge;
pub mod devices;
pub mod driver;
pub mod gate;
pub mod hotplug;
pub mod rgb;
pub mod telemetry;
pub mod text;
