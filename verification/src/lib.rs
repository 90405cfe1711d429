//! Verified core of an xComm peer-to-peer chat node: content-addressed
//! message ids, the gossip settings, the seed key loader, the dial plan and the
//! decisions taken on each network or terminal event.

pub mod decimal;
pub mod message_id;
pub mod identity;
pub mod seed_key;
pub mod gossip;
pub mod gossip_config;
pub mod address;
pub mod dial;
pub mod events;

