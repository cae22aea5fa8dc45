use handshake::connection::{Connection, ConnectionState};
use handshake::disconnect::DisconnectReason;
use handshake::packets::{
    ClientInformation, Handshake, InboundEvent, NextState, Outbound, PluginMessage,
};
use handshake::player::{ChatMode, Hand};
use handshake::server::{
    AuthPolicy, CompressionPolicy, ProxyMode, Registry, RegistryEntry, ResourcePackPolicy,
    ServerData, Settings, TexturePolicy,
};

fn make_server() -> ServerData {
    ServerData {
        settings: Settings {
            online_mode: false,
            proxy: ProxyMode::Direct,
            compression: CompressionPolicy { enabled: false, threshold: 256 },
            resource_pack: ResourcePackPolicy {
                enabled: false,
                url: String::new(),
                sha1: String::new(),
                force: false,
                prompt_message: String::new(),
            },
            auth: AuthPolicy {
                service_available: false,
                allow_banned_players: false,
                allowed_actions: Vec::new(),
                textures: TexturePolicy { require_signature: false },
            },
        },
        status: String::new(),
        branding: String::from("vanilla"),
        public_key: vec![1, 2, 3],
        registries: Vec::new(),
    }
}

fn config_ready(server: &ServerData) -> Connection {
    let mut conn = Connection::new();
    conn.handle_event(
        server,
        InboundEvent::Handshake(Handshake {
            protocol_version: 763,
            server_address: String::from("localhost"),
            next_state: NextState::Login,
        }),
    );
    let out = conn.handle_event(server, InboundEvent::LoginAcknowledged);
    assert!(conn.state == ConnectionState::Config);
    assert!(!out.is_empty());
    conn
}

fn client_information(main_hand: i32, chat_mode: i32) -> ClientInformation {
    ClientInformation {
        locale: String::from("en_us"),
        view_distance: 10,
        chat_mode,
        chat_colors: true,
        skin_parts: 0x7f,
        main_hand,
        text_filtering: false,
        server_listing: true,
    }
}

#[test]
fn login_acknowledged_sends_branding_and_known_packs() {
    let server = make_server();
    let mut conn = Connection::new();
    conn.handle_event(
        &server,
        InboundEvent::Handshake(Handshake {
            protocol_version: 763,
            server_address: String::from("localhost"),
            next_state: NextState::Login,
        }),
    );
    let out = conn.handle_event(&server, InboundEvent::LoginAcknowledged);
    assert_eq!(out.len(), 2);
    match &out[0] {
        Outbound::Brand(b) => assert_eq!(b, "vanilla"),
        other => panic!("expected branding, got {:?}", other),
    }
    match &out[1] {
        Outbound::KnownPacks(list) => {
            assert_eq!(list.len(), 1);
            assert_eq!(list[0].namespace, "minecraft");
            assert_eq!(list[0].id, "core");
            assert_eq!(list[0].version, "1.21");
        }
        other => panic!("expected known packs, got {:?}", other),
    }
    assert!(conn.state == ConnectionState::Config);
}

fn offer_for(url: &str) -> (u128, Option<String>) {
    let mut server = make_server();
    server.settings.resource_pack = ResourcePackPolicy {
        enabled: true,
        url: String::from(url),
        sha1: String::from("abc123"),
        force: true,
        prompt_message: String::from("please"),
    };
    let mut conn = Connection::new();
    conn.handle_event(
        &server,
        InboundEvent::Handshake(Handshake {
            protocol_version: 763,
            server_address: String::from("localhost"),
            next_state: NextState::Login,
        }),
    );
    let out = conn.handle_event(&server, InboundEvent::LoginAcknowledged);
    assert_eq!(out.len(), 3);
    match &out[1] {
        Outbound::AddResourcePack { id, url: u, sha1, forced, prompt } => {
            assert_eq!(u, url);
            assert_eq!(sha1, "abc123");
            assert!(*forced);
            (*id, prompt.clone())
        }
        other => panic!("expected a resource-pack offer, got {:?}", other),
    }
}

#[test]
fn resource_pack_identifier_is_a_pure_function_of_the_url() {
    let (id1, prompt) = offer_for("https://packs.example/a.zip");
    let (id2, _) = offer_for("https://packs.example/a.zip");
    let (id3, _) = offer_for("https://packs.example/b.zip");
    assert_eq!(id1, id2);
    assert_ne!(id1, id3);
    assert_eq!(prompt.as_deref(), Some("please"));
}

#[test]
fn empty_prompt_message_sends_no_prompt() {
    let mut server = make_server();
    server.settings.resource_pack = ResourcePackPolicy {
        enabled: true,
        url: String::from("https://packs.example/a.zip"),
        sha1: String::new(),
        force: false,
        prompt_message: String::new(),
    };
    let mut conn = Connection::new();
    conn.handle_event(
        &server,
        InboundEvent::Handshake(Handshake {
            protocol_version: 763,
            server_address: String::from("localhost"),
            next_state: NextState::Login,
        }),
    );
    let out = conn.handle_event(&server, InboundEvent::LoginAcknowledged);
    match &out[1] {
        Outbound::AddResourcePack { prompt, forced, .. } => {
            assert!(prompt.is_none());
            assert!(!*forced);
        }
        other => panic!("expected a resource-pack offer, got {:?}", other),
    }
}

#[test]
fn client_information_is_stored_wholesale() {
    let server = make_server();
    let mut conn = config_ready(&server);
    let out = conn.handle_event(
        &server,
        InboundEvent::ClientInformation(client_information(1, 2)),
    );
    assert!(out.is_empty());
    let cfg = conn.config.as_ref().expect("settings are stored");
    assert_eq!(cfg.locale, "en_us");
    assert_eq!(cfg.view_distance, 10);
    assert!(cfg.chat_mode == ChatMode::Hidden);
    assert!(cfg.chat_colors);
    assert_eq!(cfg.skin_parts, 0x7f);
    assert!(cfg.main_hand == Hand::Right);
    assert!(!cfg.text_filtering);
    assert!(cfg.server_listing);
}

#[test]
fn unknown_hand_or_chat_mode_is_kicked() {
    let server = make_server();
    let mut conn = config_ready(&server);
    let out = conn.handle_event(
        &server,
        InboundEvent::ClientInformation(client_information(5, 0)),
    );
    assert_eq!(out.len(), 1);
    match &out[0] {
        Outbound::Kick(reason) => assert_eq!(reason.message(), "Invalid hand or chat type"),
        other => panic!("expected a kick, got {:?}", other),
    }
    assert!(conn.state == ConnectionState::Closed);

    let mut conn = config_ready(&server);
    let out = conn.handle_event(
        &server,
        InboundEvent::ClientInformation(client_information(0, 3)),
    );
    assert_eq!(out.len(), 1);
    assert!(matches!(
        out[0],
        Outbound::Kick(DisconnectReason::MalformedClientPayload { .. })
    ));
}

#[test]
fn brand_channel_stores_the_brand() {
    let server = make_server();
    let mut conn = config_ready(&server);
    let out = conn.handle_event(
        &server,
        InboundEvent::PluginMessage(PluginMessage {
            channel: String::from("minecraft:brand"),
            data: b"fabric".to_vec(),
        }),
    );
    assert!(out.is_empty());
    assert_eq!(conn.brand.as_deref(), Some("fabric"));

    let mut conn = config_ready(&server);
    conn.handle_event(
        &server,
        InboundEvent::PluginMessage(PluginMessage {
            channel: String::from("MC|Brand"),
            data: b"legacy".to_vec(),
        }),
    );
    assert_eq!(conn.brand.as_deref(), Some("legacy"));
}

#[test]
fn non_text_brand_is_kicked() {
    let server = make_server();
    let mut conn = config_ready(&server);
    let out = conn.handle_event(
        &server,
        InboundEvent::PluginMessage(PluginMessage {
            channel: String::from("minecraft:brand"),
            data: vec![0xff, 0xfe],
        }),
    );
    assert_eq!(out.len(), 1);
    match &out[0] {
        Outbound::Kick(reason) => {
            assert!(reason.message().contains("not valid text"));
        }
        other => panic!("expected a kick, got {:?}", other),
    }
    assert!(conn.state == ConnectionState::Closed);
}

#[test]
fn other_channels_are_ignored() {
    let server = make_server();
    let mut conn = config_ready(&server);
    let out = conn.handle_event(
        &server,
        InboundEvent::PluginMessage(PluginMessage {
            channel: String::from("some:other"),
            data: vec![0xff],
        }),
    );
    assert!(out.is_empty());
    assert!(conn.brand.is_none());
    assert!(conn.state == ConnectionState::Config);
}

#[test]
fn known_packs_stream_every_registry_in_order_then_finish() {
    let mut server = make_server();
    server.registries = vec![
        Registry {
            registry_id: String::from("worldgen/biome"),
            entries: vec![RegistryEntry {
                entry_id: String::from("plains"),
                data: Some(vec![1, 2]),
            }],
        },
        Registry { registry_id: String::from("dimension_type"), entries: Vec::new() },
        Registry {
            registry_id: String::from("chat_type"),
            entries: vec![RegistryEntry { entry_id: String::from("chat"), data: None }],
        },
    ];
    let mut conn = config_ready(&server);
    let out = conn.handle_event(&server, InboundEvent::KnownPacks);
    assert_eq!(out.len(), 4);
    let expected = ["worldgen/biome", "dimension_type", "chat_type"];
    for (i, name) in expected.iter().enumerate() {
        match &out[i] {
            Outbound::RegistryData { registry_id, .. } => assert_eq!(registry_id, name),
            other => panic!("expected registry data, got {:?}", other),
        }
    }
    assert!(matches!(out[3], Outbound::FinishConfig));
    match &out[0] {
        Outbound::RegistryData { entries, .. } => {
            assert_eq!(entries.len(), 1);
            assert_eq!(entries[0].entry_id, "plains");
            assert_eq!(entries[0].data.as_deref(), Some(&[1u8, 2][..]));
        }
        _ => unreachable!(),
    }
}

#[test]
fn config_acknowledged_enters_play_and_marks_ready() {
    let server = make_server();
    let mut conn = config_ready(&server);
    let out = conn.handle_event(&server, InboundEvent::AcknowledgeFinishConfig);
    assert!(out.is_empty());
    assert!(conn.state == ConnectionState::Play);
    assert!(conn.make_player);
    let later = conn.handle_event(&server, InboundEvent::KnownPacks);
    assert!(later.is_empty());
}
