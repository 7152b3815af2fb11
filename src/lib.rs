//! Protocol and control layer for a low-energy electron diffraction
//! controller and its motorized sample stage.
pub mod application;
pub mod common;
pub mod event_logger;
pub mod lines;
pub mod motors_client;
pub mod scanner;
