//! A bridge between a remote-control surface speaking a JSON event protocol
//! over a WebSocket and the audio zones found on the local network.
//!
//! The library holds the logic: the volume domain value, the event model and
//! its wire codec, the dispatch decisions, and the decisions of the zone
//! commands and of discovery. The network work itself is done by the caller,
//! which hands the results back to the functions here.

pub mod decimal;
pub mod dispatch;
pub mod error;
pub mod event;
pub mod json;
pub mod upnp;
pub mod services;
pub mod text;
pub mod volume;
pub mod zone;
