//! Verified core of the NMIXX motor-controller host stack: the AXDR CAN FD
//! wire format, the USB CDC envelope, the transport-independent request and
//! telemetry protocol, and the application-level state that sits on top of it.

pub mod acquisition;
pub mod cli;
pub mod application;
pub mod automation;
pub mod mixed_scope;
pub mod motion;
pub mod motor_actions;
pub mod motor_gate;
pub mod parameter_service;
pub mod plot_capabilities;
pub mod preflight;
pub mod bytes;
pub mod config_service;
pub mod desktop;
pub mod wire;
pub mod protocol;
pub mod schema;
pub mod schema_store;
pub mod scope;
pub mod session;
pub mod stream;
pub mod stream_pipeline;
pub mod text;
pub mod transport;
