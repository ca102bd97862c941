//! AI-LAN service discovery: the message framing, payload models and service
//! records that a discovery agent and a scanner exchange over UDP broadcast.
pub mod config;
pub mod discoverer;
pub mod json;
pub mod protocol;
pub mod scanner;
pub mod server;
pub mod text;

pub use config::{ConfigError, EchoConfig, ServiceConfig};
pub use json::{JsonNumber, JsonValue};
pub use protocol::{
    announce_payload, discover_req_payload, discover_res_payload, frame_message, goodbye_payload,
    split_message, DiscoverResParams, ProtocolError, ServiceEvent, ServiceInfo, BROADCAST_ADDR,
    DISCOVERY_PORT, DISCOVER_REQ, DISCOVER_RES, PROTOCOL_VERSION, SERVICE_ANNOUNCE, SERVICE_GOODBYE,
};
pub use scanner::{DiscoveredService, ScanCollector, ScanEvent, ScanStep, ScannerError};
pub use server::ServerError;

use vstd::prelude::*;

verus! {

/// The version of this library.
pub const VERSION: &'static str = "0.1.0";

} // verus!

