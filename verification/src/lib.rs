//! Verified core of a pre-match multiplayer menu: player/input-device
//! binding, a two-tab local-vs-network selector, a peer-to-peer rendezvous
//! decision with deterministic peer-id assignment, and wraparound navigation
//! over a three-column level grid. Rendering and device polling live in the
//! surrounding application; this crate holds the state machines and rules.

pub mod grid;
pub mod input;
pub mod menu;
pub mod rendezvous;
