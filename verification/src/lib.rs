//! Core of an intercepting HTTPS/WebSocket proxy: the flow model and its
//! in-memory store, the certificate-authority machinery, the configuration
//! surface, and the capture logic that tees request and response bodies into
//! flows. A host drives the engine through a configuration channel and reads
//! captured flows back out of the store.

pub mod certs;
pub mod config;
pub mod flow;
pub mod oobe;
pub mod proxy;
pub mod resource;
