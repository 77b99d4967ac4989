//! A serial-to-subscriber relay core: a registry of live subscribers with
//! fresh id allocation, point-in-time broadcast snapshots, per-subscriber
//! session lifecycle with heartbeat-based liveness, and the decision logic of
//! the ingestion loop that turns hardware reads into broadcasts.

pub mod bridge;
pub mod broadcast;
pub mod messages;
pub mod registry;
pub mod session;
