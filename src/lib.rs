//! Client-side logic for a bundle-matchmaking relay: the network registry,
//! request signing, the wire text of bundles, event projection and the
//! decisions of the event-stream loop.
pub mod decode;
pub mod dispatch;
pub mod events;
pub mod hex_text;
pub mod json;
pub mod network;
pub mod quantity;
pub mod selector;
pub mod signing;
pub mod types;
