//! Client-side engine for a JSON chat protocol: command encoding, inbound
//! frame classification, roster bookkeeping, observer selection and the
//! session lifecycle. The transport itself lives outside this library; the
//! library turns intents into frame texts and frame texts into state changes
//! and observer deliveries.

pub mod json;
pub mod encoder;
pub mod roster;
pub mod frame;
pub mod registry;
pub mod lifecycle;
pub mod client;
pub mod guarantees;
