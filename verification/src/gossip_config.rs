use libp2p::gossipsub;
use std::time::Duration;
use vstd::prelude::*;

use crate::gossip::gossip_build_outcome;
use crate::gossip::GossipConfigError;
use crate::gossip::GossipSettings;
use crate::gossip::MessageValidation;
use crate::message_id::message_id;
use crate::message_id::spec_message_id;
use vstd::utf8::encode_utf8;

verus! {

#[verifier::external_type_specification]
#[verifier::external_body]
pub struct ExGossipConfig(gossipsub::Config);

#[verifier::external_type_specification]
#[verifier::external_body]
pub struct ExValidationMode(gossipsub::ValidationMode);

#[verifier::external_type_specification]
#[verifier::external_body]
pub struct ExConfigBuilderError(gossipsub::ConfigBuilderError);

/// Converts to the `gossipsub::ValidationMode` variant of the same name.
#[verifier::external_body]
fn validation_mode_of(v: MessageValidation) -> gossipsub::ValidationMode {
    match v {
        MessageValidation::Strict => gossipsub::ValidationMode::Strict,
        MessageValidation::Permissive => gossipsub::ValidationMode::Permissive,
        MessageValidation::Anonymous => gossipsub::ValidationMode::Anonymous,
        MessageValidation::Unchecked => gossipsub::ValidationMode::None,
    }
}

/// Converts a `gossipsub::ConfigBuilderError` to the variant of the same name.
#[verifier::external_body]
fn gossip_error_of(e: gossipsub::ConfigBuilderError) -> GossipConfigError {
    match e {
        gossipsub::ConfigBuilderError::MaxTransmissionSizeTooSmall => GossipConfigError::MaxTransmissionSizeTooSmall,
        gossipsub::ConfigBuilderError::HistoryLengthTooSmall => GossipConfigError::HistoryLengthTooSmall,
        gossipsub::ConfigBuilderError::MeshParametersInvalid => GossipConfigError::MeshParametersInvalid,
        gossipsub::ConfigBuilderError::MeshOutboundInvalid => GossipConfigError::MeshOutboundInvalid,
        gossipsub::ConfigBuilderError::UnsubscribeBackoffIsZero => GossipConfigError::UnsubscribeBackoffIsZero,
        gossipsub::ConfigBuilderError::InvalidProtocol => GossipConfigError::InvalidProtocol,
    }
}

/// A built gossip configuration together with the settings it was built from. Only
/// `build_gossip_config` makes one, so the configuration is always built from its settings.
pub struct GossipConfig {
    settings: GossipSettings,
    inner: gossipsub::Config,
}

impl View for GossipConfig {
    type V = GossipSettings;

    /// The settings that the configuration was built from.
    closed spec fn view(&self) -> GossipSettings {
        self.settings
    }
}

impl GossipConfig {
    /// The settings that the configuration was built from.
    pub fn settings(&self) -> (s: GossipSettings)
        ensures
            s == self@,
    {
        self.settings
    }

    /// The id that the configuration gives a gossip message with this data: the UTF-8
    /// bytes of `message_id` of the data alone.
    pub fn message_id_bytes(&self, data: &[u8]) -> (id: Vec<u8>)
        ensures
            id@ == encode_utf8(spec_message_id(data@)),
    {
        installed_message_id(self, data)
    }

    /// The `gossipsub::Config` to hand to `gossipsub::Behaviour::new`.
    pub fn into_inner(self) -> gossipsub::Config {
        self.inner
    }
}

/// Calls `gossipsub::Config::message_id` on a message with this data and no source,
/// sequence number or topic. Trusted: `message_id` calls the function installed by
/// `build_gossip_config`, the only maker of a `GossipConfig`, which wraps the string of
/// `message_id` of the data in a `MessageId`, whose bytes are that string's UTF-8 bytes.
#[verifier::external_body]
fn installed_message_id(c: &GossipConfig, data: &[u8]) -> (id: Vec<u8>)
    ensures
        id@ == encode_utf8(spec_message_id(data@)),
{
    let topic = gossipsub::TopicHash::from_raw("");
    let message = gossipsub::Message { source: None, data: data.to_vec(), sequence_number: None, topic };
    c.inner.message_id(&message).0
}

/// Calls `gossipsub::ConfigBuilder::build` on `ConfigBuilder::default()` set to the given
/// heartbeat, mesh upper bound, transmit size and validation mode, and with message ids
/// computed by `message_id` from the message data. Trusted: `build` succeeds or fails as
/// `gossip_build_outcome` says, which is what its checks give on the builder's defaults.
/// The built config is kept beside the settings it was built from; that its fields carry
/// those settings is what the setters above do, and is not otherwise stated.
#[verifier::external_body]
pub(crate) fn build_gossip_config(s: &GossipSettings) -> (r: Result<GossipConfig, GossipConfigError>)
    ensures
        match (r, gossip_build_outcome(*s)) {
            (Ok(c), Ok(_)) => c@ == *s,
            (Err(e), Err(expected)) => e == expected,
            _ => false,
        },
{
    gossipsub::ConfigBuilder::default()
        .heartbeat_interval(Duration::from_secs(s.heartbeat_secs))
        .mesh_n_high(s.mesh_n_high)
        .max_transmit_size(s.max_transmit_size)
        .validation_mode(validation_mode_of(s.validation))
        .message_id_fn(|m: &gossipsub::Message| gossipsub::MessageId::from(message_id(&m.data)))
        .build()
        .map(|inner| GossipConfig { settings: *s, inner })
        .map_err(gossip_error_of)
}

} // verus!
