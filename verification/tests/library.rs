use std::collections::hash_map::DefaultHasher;
use std::hash::{Hash, Hasher};
use std::time::Duration;

use libp2p::gossipsub;
use libp2p::identity::Keypair;
use xcomm::decimal::u64_to_decimal;
use xcomm::dial::{dial_plan, listen_texts, parse_all, seed_addresses, NodeRole, CHAT_TOPIC};
use xcomm::events::{handle_chat_event, seed_event_line, ChatAction, ChatEvent, SeedEvent};
use xcomm::gossip::{
    chat_gossip_config, chat_gossip_settings, gossip_config, GossipConfigError, GossipSettings,
    MessageValidation,
};
use xcomm::message_id::message_id;
use xcomm::seed_key::{load_or_gen_keypair, try_load_or_gen_keypair, HexError, SeedKeyError};

fn strings(texts: &[&str]) -> Vec<String> {
    texts.iter().map(|t| t.to_string()).collect()
}

#[test]
fn decimal_of_zero_and_extremes() {
    assert_eq!(u64_to_decimal(0), "0");
    assert_eq!(u64_to_decimal(7), "7");
    assert_eq!(u64_to_decimal(10), "10");
    assert_eq!(u64_to_decimal(1234567890), "1234567890");
    assert_eq!(u64_to_decimal(u64::MAX), "18446744073709551615");
}

#[test]
fn decimal_matches_std_formatting() {
    for n in [1u64, 9, 99, 100, 4001, 65536, 1 << 40, u64::MAX - 1] {
        assert_eq!(u64_to_decimal(n), n.to_string());
    }
}

#[test]
fn message_id_is_decimal_default_hash_of_data() {
    let data = b"hello world!".to_vec();
    let mut h = DefaultHasher::new();
    data.hash(&mut h);
    assert_eq!(message_id(&data), h.finish().to_string());
}

#[test]
fn same_data_same_message_id() {
    let a = message_id(b"hello world!");
    let b = message_id(&b"hello world!".to_vec());
    assert_eq!(a, b);
    assert_ne!(message_id(b"hello world!"), message_id(b"hello world?"));
    assert!(a.chars().all(|c| c.is_ascii_digit()));
    assert!(a.len() <= 20);
}

#[test]
fn empty_message_has_an_id() {
    let mut h = DefaultHasher::new();
    Vec::<u8>::new().hash(&mut h);
    assert_eq!(message_id(&[]), h.finish().to_string());
}

#[test]
fn no_key_configured_generates_one() {
    let k = load_or_gen_keypair(None);
    assert!(k.is_generated());
    assert_eq!(k.keypair().key_type(), libp2p::identity::KeyType::Ed25519);
    assert!(try_load_or_gen_keypair(None).unwrap().is_generated());
}

#[test]
fn configured_key_is_loaded() {
    let original = Keypair::ed25519_from_bytes([7u8; 32]).unwrap();
    let encoded = original.to_protobuf_encoding().unwrap();
    let text = hex::encode(&encoded);
    let loaded = load_or_gen_keypair(Some(&text));
    assert!(!loaded.is_generated());
    assert_eq!(loaded.keypair().public().to_peer_id(), original.public().to_peer_id());
    assert_eq!(loaded.keypair().to_protobuf_encoding().unwrap(), encoded);
    assert_eq!(loaded.peer_id(), original.public().to_peer_id().to_base58());
    let tried = try_load_or_gen_keypair(Some(&text)).unwrap();
    assert_eq!(tried.peer_id(), loaded.peer_id());
}

#[test]
fn configured_key_gives_same_peer_id_every_time() {
    let text = hex::encode(Keypair::generate_ed25519().to_protobuf_encoding().unwrap());
    assert_eq!(load_or_gen_keypair(Some(&text)).peer_id(), load_or_gen_keypair(Some(&text)).peer_id());
}

#[test]
fn configured_key_in_upper_case_is_loaded() {
    let original = Keypair::generate_ed25519();
    let encoded = hex::encode_upper(original.to_protobuf_encoding().unwrap());
    let loaded = load_or_gen_keypair(Some(&encoded));
    assert!(!loaded.is_generated());
    assert_eq!(loaded.keypair().public().to_peer_id(), original.public().to_peer_id());
}

#[test]
fn odd_hex_is_refused() {
    assert_eq!(
        try_load_or_gen_keypair(Some("abc")).err(),
        Some(SeedKeyError::Hex(HexError::OddLength))
    );
}

#[test]
fn non_hex_character_is_refused_at_its_position() {
    assert_eq!(
        try_load_or_gen_keypair(Some("0a1g")).err(),
        Some(SeedKeyError::Hex(HexError::InvalidHexCharacter { c: 'g', index: 3 }))
    );
    assert_eq!(
        try_load_or_gen_keypair(Some("zz")).err(),
        Some(SeedKeyError::Hex(HexError::InvalidHexCharacter { c: 'z', index: 0 }))
    );
}

#[test]
fn odd_length_is_reported_before_bad_characters() {
    assert_eq!(
        try_load_or_gen_keypair(Some("xyz")).err(),
        Some(SeedKeyError::Hex(HexError::OddLength))
    );
}

#[test]
fn hex_that_is_no_private_key_is_refused() {
    assert_eq!(try_load_or_gen_keypair(Some("00")).err(), Some(SeedKeyError::Protobuf));
    assert_eq!(try_load_or_gen_keypair(Some("")).err(), Some(SeedKeyError::Protobuf));
    assert_eq!(try_load_or_gen_keypair(Some(&"07".repeat(32))).err(), Some(SeedKeyError::Protobuf));
}

#[test]
fn chat_settings_are_the_documented_ones() {
    let s = chat_gossip_settings();
    assert_eq!(
        s,
        GossipSettings {
            heartbeat_secs: 4,
            mesh_n_high: 12,
            max_transmit_size: 2048,
            validation: MessageValidation::Strict,
        }
    );
}

#[test]
fn chat_config_builds_with_the_settings() {
    let config = chat_gossip_config().unwrap().into_inner();
    assert_eq!(config.heartbeat_interval(), Duration::from_secs(4));
    assert_eq!(config.mesh_n_high(), 12);
    assert_eq!(config.max_transmit_size(), 2048);
    assert!(matches!(config.validation_mode(), gossipsub::ValidationMode::Strict));
}

#[test]
fn chat_config_uses_content_addressed_ids() {
    let config = chat_gossip_config().unwrap().into_inner();
    let message = gossipsub::Message {
        source: None,
        data: b"hello world!".to_vec(),
        sequence_number: None,
        topic: gossipsub::IdentTopic::new(CHAT_TOPIC).hash(),
    };
    assert_eq!(config.message_id(&message), gossipsub::MessageId::from(message_id(b"hello world!")));
}

#[test]
fn too_small_transmit_size_is_refused() {
    let settings = GossipSettings { max_transmit_size: 99, ..chat_gossip_settings() };
    assert_eq!(gossip_config(&settings).err(), Some(GossipConfigError::MaxTransmissionSizeTooSmall));
    let settings = GossipSettings { max_transmit_size: 100, ..chat_gossip_settings() };
    assert!(gossip_config(&settings).is_ok());
}

#[test]
fn mesh_bound_under_target_is_refused() {
    let settings = GossipSettings { mesh_n_high: 5, ..chat_gossip_settings() };
    assert_eq!(gossip_config(&settings).err(), Some(GossipConfigError::MeshParametersInvalid));
    let settings = GossipSettings { mesh_n_high: 6, ..chat_gossip_settings() };
    assert!(gossip_config(&settings).is_ok());
    let settings = GossipSettings { mesh_n_high: 5, max_transmit_size: 10, ..chat_gossip_settings() };
    assert_eq!(gossip_config(&settings).err(), Some(GossipConfigError::MaxTransmissionSizeTooSmall));
}

#[test]
fn dial_plan_keeps_parsable_addresses_in_order() {
    let texts = strings(&["/ip4/127.0.0.1/tcp/4001", "not an address", "", "/ip6/::1/udp/9/quic-v1", "ip4/1.2.3.4"]);
    let plan = dial_plan(&texts);
    let positions: Vec<usize> = plan.iter().map(|t| t.position).collect();
    // The empty text is the empty multiaddress, which parses.
    assert_eq!(positions, vec![0, 2, 3]);
    assert_eq!(plan[0].addr.multiaddr().to_string(), "/ip4/127.0.0.1/tcp/4001");
    assert_eq!(plan[1].addr.multiaddr().to_string(), "");
    assert_eq!(plan[2].addr.multiaddr().to_string(), "/ip6/::1/udp/9/quic-v1");
    for t in &plan {
        assert_eq!(t.addr.source_text(), texts[t.position]);
    }
}

#[test]
fn dial_plan_of_nothing_is_empty() {
    assert!(dial_plan(&Vec::new()).is_empty());
}

#[test]
fn seed_addresses_are_the_well_known_ones() {
    assert_eq!(
        seed_addresses(),
        strings(&[
            "/dnsaddr/seed1.xcomm.org/tcp/4001/p2p/12D3KooWSeed1",
            "/dnsaddr/seed2.xcomm.org/tcp/4001/p2p/12D3KooWSeed2",
        ])
    );
}

#[test]
fn listen_addresses_parse() {
    let chat = parse_all(&listen_texts(NodeRole::Chat)).unwrap();
    assert_eq!(chat.len(), 2);
    assert_eq!(chat[0].multiaddr().to_string(), "/ip4/0.0.0.0/tcp/0");
    assert_eq!(chat[1].multiaddr().to_string(), "/ip4/0.0.0.0/udp/0/quic-v1");
    let seed = parse_all(&listen_texts(NodeRole::Seed)).unwrap();
    assert_eq!(seed[0].multiaddr().to_string(), "/ip4/0.0.0.0/tcp/4001");
    assert_eq!(seed[1].multiaddr().to_string(), "/ip4/0.0.0.0/udp/4001/quic-v1");
    assert_eq!(seed[0].source_text(), "/ip4/0.0.0.0/tcp/4001");
}

#[test]
fn parse_all_reports_first_bad_position() {
    let texts = strings(&["/ip4/0.0.0.0/tcp/0", "bad", "also bad"]);
    assert_eq!(parse_all(&texts).err(), Some(1));
}

#[test]
fn input_line_is_published() {
    let action = handle_chat_event(ChatEvent::InputLine("hello world!".to_string()));
    assert_eq!(action, ChatAction::Publish(b"hello world!".to_vec()));
    let action = handle_chat_event(ChatEvent::InputLine("안녕하세요!".to_string()));
    assert_eq!(action, ChatAction::Publish("안녕하세요!".as_bytes().to_vec()));
}

#[test]
fn gossip_message_is_shown_with_source() {
    let action = handle_chat_event(ChatEvent::GossipMessage {
        source: "12D3KooWChatB".to_string(),
        data: "안녕하세요!".as_bytes().to_vec(),
    });
    assert_eq!(action, ChatAction::Show("[12D3KooWChatB] 안녕하세요!".to_string()));
}

#[test]
fn invalid_utf8_is_shown_with_replacement() {
    let action = handle_chat_event(ChatEvent::GossipMessage {
        source: "p".to_string(),
        data: vec![b'a', 0xff, b'b'],
    });
    assert_eq!(action, ChatAction::Show("[p] a\u{FFFD}b".to_string()));
}

#[test]
fn published_line_shown_verbatim() {
    let line = "hello world!".to_string();
    let published = match handle_chat_event(ChatEvent::InputLine(line.clone())) {
        ChatAction::Publish(bytes) => bytes,
        other => panic!("unexpected {:?}", other),
    };
    let shown = handle_chat_event(ChatEvent::GossipMessage { source: "alice".to_string(), data: published });
    assert_eq!(shown, ChatAction::Show(format!("[alice] {}", line)));
}

#[test]
fn network_notices_are_shown() {
    assert_eq!(
        handle_chat_event(ChatEvent::UpnpExternalAddr("/ip4/14.36.108.162/tcp/49174".to_string())),
        ChatAction::Show("🌐 UPnP external addr: /ip4/14.36.108.162/tcp/49174".to_string())
    );
    assert_eq!(
        handle_chat_event(ChatEvent::NatStatusChanged { old: "Unknown".to_string(), new: "Private".to_string() }),
        ChatAction::Show("🔍 AutoNAT: Unknown → Private".to_string())
    );
    assert_eq!(
        handle_chat_event(ChatEvent::DirectConnectionUpgraded { peer: "12D3KooWChatB".to_string() }),
        ChatAction::Show("🚀 DCUtR direct connection with 12D3KooWChatB established".to_string())
    );
    assert_eq!(
        handle_chat_event(ChatEvent::NewListenAddr("/ip4/192.168.0.11/tcp/49174".to_string())),
        ChatAction::Show("▶ Listen: /ip4/192.168.0.11/tcp/49174".to_string())
    );
    assert_eq!(handle_chat_event(ChatEvent::Other), ChatAction::Ignore);
}

#[test]
fn seed_shows_only_listen_addresses() {
    assert_eq!(
        seed_event_line(SeedEvent::NewListenAddr("/ip4/203.0.113.10/tcp/4001".to_string())),
        Some("▶ Listen on /ip4/203.0.113.10/tcp/4001".to_string())
    );
    assert_eq!(seed_event_line(SeedEvent::Other), None);
}

#[test]
fn built_config_keeps_its_settings() {
    assert_eq!(chat_gossip_config().unwrap().settings(), chat_gossip_settings());
    let settings = GossipSettings { heartbeat_secs: 2, mesh_n_high: 6, ..chat_gossip_settings() };
    let config = gossip_config(&settings).unwrap();
    assert_eq!(config.settings(), settings);
    let inner = config.into_inner();
    assert_eq!(inner.heartbeat_interval(), Duration::from_secs(2));
    assert_eq!(inner.mesh_n_high(), 6);
}

#[test]
fn config_gives_content_addressed_message_ids() {
    let config = chat_gossip_config().unwrap();
    assert_eq!(config.message_id_bytes(b"hello world!"), message_id(b"hello world!").into_bytes());
    assert_eq!(config.message_id_bytes(b""), message_id(b"").into_bytes());
}
