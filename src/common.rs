pub mod controller;
pub mod leed_controller;
pub mod protocol;
pub mod sniffer;
pub mod setpoint;
