//! Core of a request orchestrator that fans an inbound processing request out
//! to two downstream services — a validator and a computer — and folds both
//! outcomes into one aggregated response.
//!
//! The decision logic lives here, fully verified: extracting the payload
//! identifier, classifying each downstream call's outcome into the three-tier
//! error taxonomy (connection failure, transport failure, logical failure),
//! building the downstream requests, and assembling the final response with
//! its status message and metrics. Transport, telemetry and the event loop
//! stay outside the library and hand plain values in.

pub mod types;
pub mod downstream;
pub mod orchestrator;
