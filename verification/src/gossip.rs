use vstd::prelude::*;

use crate::gossip_config::build_gossip_config;
use crate::gossip_config::GossipConfig;

verus! {

/// How strictly received gossip messages are checked; the variants of
/// `gossipsub::ValidationMode`.
#[derive(Debug, PartialEq, Eq, Structural, Clone, Copy)]
pub enum MessageValidation {
    /// Signature, author and sequence number are required and checked.
    Strict,
    /// Signature, author and sequence number are checked when present.
    Permissive,
    /// Signature, author and sequence number must be absent.
    Anonymous,
    /// Nothing is checked.
    Unchecked,
}

/// The gossip settings that the chat node chooses; everything else keeps the
/// defaults of `gossipsub::ConfigBuilder`.
#[derive(Debug, PartialEq, Eq, Structural, Clone, Copy)]
pub struct GossipSettings {
    /// Seconds between two heartbeats.
    pub heartbeat_secs: u64,
    /// Upper bound of peers kept in the mesh of a topic.
    pub mesh_n_high: usize,
    /// Largest message, in bytes, that is sent or accepted.
    pub max_transmit_size: usize,
    /// How received messages are checked.
    pub validation: MessageValidation,
}

/// The reasons that `gossipsub::ConfigBuilder::build` can give; the variants of
/// `gossipsub::ConfigBuilderError`.
#[derive(Debug, PartialEq, Eq, Structural, Clone, Copy)]
pub enum GossipConfigError {
    MaxTransmissionSizeTooSmall,
    HistoryLengthTooSmall,
    MeshParametersInvalid,
    MeshOutboundInvalid,
    UnsubscribeBackoffIsZero,
    InvalidProtocol,
}

/// The builder's defaults that its checks read: history length 5, history gossip 3,
/// mesh sizes 5 (low) and 6 (target), outbound minimum 2, unsubscribe back-off 10 s.
/// With those, what building with `s` gives: a too small transmit size is refused
/// first, then a mesh upper bound under the mesh target.
pub open spec fn gossip_build_outcome(s: GossipSettings) -> Result<(), GossipConfigError> {
    if s.max_transmit_size < 100 {
        Err(GossipConfigError::MaxTransmissionSizeTooSmall)
    } else if s.mesh_n_high < 6 {
        Err(GossipConfigError::MeshParametersInvalid)
    } else {
        Ok(())
    }
}

/// The chat node's gossip settings: a heartbeat every 4 seconds, at most 12 mesh
/// peers, messages of at most 2 KiB, and strict validation of signed messages.
pub fn chat_gossip_settings() -> (s: GossipSettings)
    ensures
        s == (GossipSettings {
            heartbeat_secs: 4,
            mesh_n_high: 12,
            max_transmit_size: 2048,
            validation: MessageValidation::Strict,
        }),
{
    GossipSettings {
        heartbeat_secs: 4,
        mesh_n_high: 12,
        max_transmit_size: 2048,
        validation: MessageValidation::Strict,
    }
}

/// Builds the gossip configuration for the given settings, with content-addressed
/// message ids; fails exactly as `gossip_build_outcome` says.
pub fn gossip_config(settings: &GossipSettings) -> (r: Result<GossipConfig, GossipConfigError>)
    ensures
        r is Ok <==> gossip_build_outcome(*settings) is Ok,
        r matches Ok(c) ==> c@ == *settings,
        r matches Err(e) ==> gossip_build_outcome(*settings) == Err::<(), GossipConfigError>(e),
{
    build_gossip_config(settings)
}

/// Builds the chat node's gossip configuration from the chat's settings (a heartbeat
/// every 4 seconds, at most 12 mesh peers, messages of at most 2 KiB, strict
/// validation); with those settings this never fails.
pub fn chat_gossip_config() -> (r: Result<GossipConfig, GossipConfigError>)
    ensures
        r matches Ok(c) && c@ == (GossipSettings {
            heartbeat_secs: 4,
            mesh_n_high: 12,
            max_transmit_size: 2048,
            validation: MessageValidation::Strict,
        }),
{
    let settings = chat_gossip_settings();
    gossip_config(&settings)
}

} // verus!
