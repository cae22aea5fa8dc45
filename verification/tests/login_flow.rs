use handshake::connection::{Connection, ConnectionState};
use handshake::disconnect::{AuthFailure, DisconnectReason};
use handshake::packets::{
    DecryptedSecrets, Handshake, InboundEvent, LoginStart, NextState, Outbound, ProxyVariant,
};
use handshake::profile::{GameProfile, Property};
use handshake::server::{
    AuthPolicy, CompressionPolicy, ProxyMode, ResourcePackPolicy, ServerData, Settings,
    TexturePolicy,
};

fn make_server(online: bool, service: bool, compression: bool) -> ServerData {
    ServerData {
        settings: Settings {
            online_mode: online,
            proxy: ProxyMode::Direct,
            compression: CompressionPolicy { enabled: compression, threshold: 256 },
            resource_pack: ResourcePackPolicy {
                enabled: false,
                url: String::new(),
                sha1: String::new(),
                force: false,
                prompt_message: String::new(),
            },
            auth: AuthPolicy {
                service_available: service,
                allow_banned_players: false,
                allowed_actions: Vec::new(),
                textures: TexturePolicy { require_signature: false },
            },
        },
        status: String::new(),
        branding: String::from("vanilla"),
        public_key: vec![1, 2, 3],
        registries: Vec::new(),
    }
}

fn login_ready(server: &ServerData) -> Connection {
    let mut conn = Connection::new();
    let out = conn.handle_event(
        server,
        InboundEvent::Handshake(Handshake {
            protocol_version: 763,
            server_address: String::from("localhost"),
            next_state: NextState::Login,
        }),
    );
    assert!(out.is_empty());
    conn
}

fn login_start(name: &str) -> InboundEvent {
    InboundEvent::LoginStart(LoginStart { name: String::from(name), uuid: 42 })
}

fn matching_secrets(conn: &Connection) -> DecryptedSecrets {
    let token = conn.verify_token.expect("a verify token must have been issued");
    DecryptedSecrets { shared_secret: vec![10, 11, 12], verify_token: token.to_vec() }
}

#[test]
fn valid_names_are_accepted() {
    assert!(Connection::is_valid_player_name("Steve"));
    assert!(Connection::is_valid_player_name("aaaaaaaaaaaaaaaa"));
    assert!(Connection::is_valid_player_name("!~"));
    assert!(Connection::is_valid_player_name(""));
}

#[test]
fn invalid_names_are_rejected() {
    assert!(!Connection::is_valid_player_name("aaaaaaaaaaaaaaaaa"));
    assert!(!Connection::is_valid_player_name("a b"));
    assert!(!Connection::is_valid_player_name("a\u{7f}b"));
    assert!(!Connection::is_valid_player_name("ä"));
    assert!(!Connection::is_valid_player_name("a\nb"));
}

#[test]
fn offline_login_start_sends_encryption_request() {
    let server = make_server(false, false, false);
    let mut conn = login_ready(&server);
    let out = conn.handle_event(&server, login_start("Steve"));
    assert_eq!(out.len(), 1);
    match &out[0] {
        Outbound::EncryptionRequest { public_key, verify_token, should_authenticate } => {
            assert_eq!(public_key, &vec![1, 2, 3]);
            assert_eq!(Some(*verify_token), conn.verify_token);
            assert!(!should_authenticate);
        }
        other => panic!("expected an encryption request, got {:?}", other),
    }
    let profile = conn.profile.as_ref().expect("a provisional profile is created");
    assert_eq!(profile.name, "Steve");
    assert_eq!(profile.id, 42);
    assert!(profile.properties.is_empty());
    assert!(profile.profile_actions.is_none());
}

#[test]
fn name_with_space_is_kicked_before_encryption() {
    let server = make_server(false, false, false);
    let mut conn = login_ready(&server);
    let out = conn.handle_event(&server, login_start("a b"));
    assert_eq!(out.len(), 1);
    match &out[0] {
        Outbound::Kick(reason) => {
            assert!(matches!(reason, DisconnectReason::InvalidUsername));
            assert_eq!(reason.message(), "Invalid characters in username");
        }
        other => panic!("expected a kick, got {:?}", other),
    }
    assert!(conn.state == ConnectionState::Closed);
    assert!(conn.profile.is_none());
    assert!(conn.verify_token.is_none());
}

#[test]
fn proxy_variants_delegate_to_adapters() {
    let mut server = make_server(false, false, false);
    server.settings.proxy = ProxyMode::Velocity;
    let mut conn = login_ready(&server);
    let out = conn.handle_event(&server, login_start("Steve"));
    assert_eq!(out.len(), 1);
    assert!(matches!(out[0], Outbound::BeginProxyLogin(ProxyVariant::Velocity)));
    assert!(conn.proxy_pending);

    server.settings.proxy = ProxyMode::Bungeecord;
    let mut conn = login_ready(&server);
    let out = conn.handle_event(&server, login_start("Steve"));
    assert_eq!(out.len(), 1);
    assert!(matches!(out[0], Outbound::BeginProxyLogin(ProxyVariant::Bungeecord)));
}

#[test]
fn offline_encryption_success_finishes_login_without_compression() {
    let server = make_server(false, false, false);
    let mut conn = login_ready(&server);
    conn.handle_event(&server, login_start("Steve"));
    let secrets = matching_secrets(&conn);
    let out = conn.handle_event(&server, InboundEvent::EncryptionResponse(Ok(secrets)));
    assert_eq!(out.len(), 2);
    assert!(matches!(out[0], Outbound::EnableEncryption));
    match &out[1] {
        Outbound::LoginSuccess { id, name, properties, strict_error_handling } => {
            assert_eq!(*id, 42);
            assert_eq!(name, "Steve");
            assert!(properties.is_empty());
            assert!(!strict_error_handling);
        }
        other => panic!("expected a login confirmation, got {:?}", other),
    }
    assert_eq!(conn.encryption.as_deref(), Some(&[10u8, 11, 12][..]));
    assert!(conn.compression.is_none());
}

#[test]
fn compression_is_announced_once_and_before_login_success() {
    let server = make_server(false, false, true);
    let mut conn = login_ready(&server);
    conn.handle_event(&server, login_start("Steve"));
    let secrets = matching_secrets(&conn);
    let out = conn.handle_event(&server, InboundEvent::EncryptionResponse(Ok(secrets)));
    assert_eq!(out.len(), 3);
    assert!(matches!(out[0], Outbound::EnableEncryption));
    assert!(matches!(out[1], Outbound::SetCompression { threshold: 256 }));
    assert!(matches!(out[2], Outbound::LoginSuccess { .. }));
    let announcements = out
        .iter()
        .filter(|o| matches!(o, Outbound::SetCompression { .. }))
        .count();
    assert_eq!(announcements, 1);
    assert_eq!(conn.compression, Some(256));
}

#[test]
fn decryption_failure_is_fatal() {
    let server = make_server(false, false, false);
    let mut conn = login_ready(&server);
    conn.handle_event(&server, login_start("Steve"));
    let out = conn.handle_event(
        &server,
        InboundEvent::EncryptionResponse(Err(String::from("bad padding"))),
    );
    assert_eq!(out.len(), 1);
    match &out[0] {
        Outbound::Kick(reason) => {
            assert!(reason.message().contains("bad padding"));
        }
        other => panic!("expected a kick, got {:?}", other),
    }
    assert!(conn.state == ConnectionState::Closed);
    assert!(conn.encryption.is_none());
}

#[test]
fn verify_token_mismatch_is_fatal() {
    let server = make_server(false, false, false);
    let mut conn = login_ready(&server);
    conn.handle_event(&server, login_start("Steve"));
    let out = conn.handle_event(
        &server,
        InboundEvent::EncryptionResponse(Ok(DecryptedSecrets {
            shared_secret: vec![1],
            verify_token: vec![0, 0, 0, 0, 0],
        })),
    );
    assert_eq!(out.len(), 1);
    match &out[0] {
        Outbound::Kick(reason) => assert!(reason.message().contains("Verify token mismatch")),
        other => panic!("expected a kick, got {:?}", other),
    }
    assert!(conn.encryption.is_none());
    assert!(conn.state == ConnectionState::Closed);
}

#[test]
fn online_mode_asks_for_authentication_after_encryption() {
    let server = make_server(true, true, false);
    let mut conn = login_ready(&server);
    conn.handle_event(&server, login_start("Steve"));
    let secrets = matching_secrets(&conn);
    let out = conn.handle_event(&server, InboundEvent::EncryptionResponse(Ok(secrets)));
    assert_eq!(out.len(), 2);
    assert!(matches!(out[0], Outbound::EnableEncryption));
    match &out[1] {
        Outbound::BeginAuthentication { username } => assert_eq!(username, "Steve"),
        other => panic!("expected an authentication request, got {:?}", other),
    }
    assert!(conn.auth_pending);
    assert!(conn.state == ConnectionState::Login);
}

#[test]
fn missing_identity_service_is_fatal() {
    let server = make_server(true, false, false);
    let mut conn = login_ready(&server);
    conn.handle_event(&server, login_start("Steve"));
    let secrets = matching_secrets(&conn);
    let out = conn.handle_event(&server, InboundEvent::EncryptionResponse(Ok(secrets)));
    assert_eq!(out.len(), 2);
    assert!(matches!(out[0], Outbound::EnableEncryption));
    match &out[1] {
        Outbound::Kick(DisconnectReason::AuthenticationFailure {
            failure: AuthFailure::MissingService,
        }) => {}
        other => panic!("expected a missing-service kick, got {:?}", other),
    }
    assert!(conn.state == ConnectionState::Closed);
}

fn authenticated(server: &ServerData) -> Connection {
    let mut conn = login_ready(server);
    conn.handle_event(server, login_start("Steve"));
    let secrets = matching_secrets(&conn);
    conn.handle_event(server, InboundEvent::EncryptionResponse(Ok(secrets)));
    assert!(conn.auth_pending);
    conn
}

#[test]
fn identity_service_error_kicks_with_its_description() {
    let server = make_server(true, true, false);
    let mut conn = authenticated(&server);
    let out = conn.handle_event(
        &server,
        InboundEvent::AuthenticationResult(Err(AuthFailure::ServiceUnreachable(String::from(
            "network unreachable",
        )))),
    );
    assert_eq!(out.len(), 1);
    match &out[0] {
        Outbound::Kick(reason) => assert_eq!(reason.message(), "network unreachable"),
        other => panic!("expected a kick, got {:?}", other),
    }
    assert!(conn.state == ConnectionState::Closed);
    assert!(!out.iter().any(|o| matches!(o, Outbound::LoginSuccess { .. })));
}

fn verified_profile(actions: Option<Vec<String>>, properties: Vec<Property>) -> GameProfile {
    GameProfile { id: 7, name: String::from("Steve"), properties, profile_actions: actions }
}

#[test]
fn banned_profile_is_kicked_and_never_confirmed() {
    let server = make_server(true, true, false);
    let mut conn = authenticated(&server);
    let profile = verified_profile(Some(vec![String::from("FORCED_NAME_CHANGE")]), Vec::new());
    let out = conn.handle_event(&server, InboundEvent::AuthenticationResult(Ok(profile)));
    assert_eq!(out.len(), 1);
    match &out[0] {
        Outbound::Kick(reason) => {
            assert!(matches!(reason, DisconnectReason::PolicyDenied));
            assert_eq!(reason.message(), "Your account can't join");
        }
        other => panic!("expected a policy kick, got {:?}", other),
    }
    assert!(conn.state == ConnectionState::Closed);
    let later = conn.handle_event(&server, InboundEvent::LoginAcknowledged);
    assert!(later.is_empty());
}

#[test]
fn action_outside_allow_list_is_kicked() {
    let mut server = make_server(true, true, false);
    server.settings.auth.allow_banned_players = true;
    server.settings.auth.allowed_actions = vec![String::from("USING_BANNED_SKIN")];
    let mut conn = authenticated(&server);
    let profile = verified_profile(Some(vec![String::from("FORCED_NAME_CHANGE")]), Vec::new());
    let out = conn.handle_event(&server, InboundEvent::AuthenticationResult(Ok(profile)));
    assert_eq!(out.len(), 1);
    assert!(matches!(out[0], Outbound::Kick(DisconnectReason::PolicyDenied)));
}

#[test]
fn allowed_actions_admit_the_profile() {
    let mut server = make_server(true, true, false);
    server.settings.auth.allow_banned_players = true;
    server.settings.auth.allowed_actions = vec![String::from("FORCED_NAME_CHANGE")];
    let mut conn = authenticated(&server);
    let profile = verified_profile(Some(vec![String::from("FORCED_NAME_CHANGE")]), Vec::new());
    let out = conn.handle_event(&server, InboundEvent::AuthenticationResult(Ok(profile)));
    assert_eq!(out.len(), 1);
    assert!(matches!(out[0], Outbound::LoginSuccess { .. }));
}

#[test]
fn unsigned_texture_fails_the_texture_policy() {
    let mut server = make_server(true, true, false);
    server.settings.auth.textures = TexturePolicy { require_signature: true };
    let mut conn = authenticated(&server);
    let profile = verified_profile(
        None,
        vec![Property { name: String::from("textures"), value: String::from("x"), signature: None }],
    );
    let out = conn.handle_event(&server, InboundEvent::AuthenticationResult(Ok(profile)));
    assert_eq!(out.len(), 1);
    match &out[0] {
        Outbound::Kick(DisconnectReason::AuthenticationFailure {
            failure: AuthFailure::TextureInvalid(name),
        }) => assert_eq!(name, "textures"),
        other => panic!("expected a texture kick, got {:?}", other),
    }
}

#[test]
fn admitted_profile_is_finalized_and_confirmed() {
    let server = make_server(true, true, false);
    let mut conn = authenticated(&server);
    let profile = verified_profile(
        None,
        vec![Property {
            name: String::from("textures"),
            value: String::from("x"),
            signature: Some(String::from("sig")),
        }],
    );
    let out = conn.handle_event(&server, InboundEvent::AuthenticationResult(Ok(profile)));
    assert_eq!(out.len(), 1);
    match &out[0] {
        Outbound::LoginSuccess { id, name, properties, .. } => {
            assert_eq!(*id, 7);
            assert_eq!(name, "Steve");
            assert_eq!(properties.len(), 1);
            assert_eq!(properties[0].signature.as_deref(), Some("sig"));
        }
        other => panic!("expected a login confirmation, got {:?}", other),
    }
    assert!(!conn.auth_pending);
    assert_eq!(conn.profile.as_ref().unwrap().id, 7);
}

#[test]
fn proxy_failure_kicks_with_its_description() {
    let mut server = make_server(false, false, false);
    server.settings.proxy = ProxyMode::Bungeecord;
    let mut conn = login_ready(&server);
    conn.handle_event(&server, login_start("Steve"));
    let out = conn.handle_event(
        &server,
        InboundEvent::ProxyIdentity(Err(String::from("missing forwarded data"))),
    );
    assert_eq!(out.len(), 1);
    match &out[0] {
        Outbound::Kick(reason) => assert_eq!(reason.message(), "missing forwarded data"),
        other => panic!("expected a kick, got {:?}", other),
    }
}

#[test]
fn proxy_identity_finishes_login() {
    let mut server = make_server(false, false, true);
    server.settings.proxy = ProxyMode::Velocity;
    let mut conn = login_ready(&server);
    conn.handle_event(&server, login_start("Steve"));
    let profile = verified_profile(None, Vec::new());
    let out = conn.handle_event(&server, InboundEvent::ProxyIdentity(Ok(profile)));
    assert_eq!(out.len(), 2);
    assert!(matches!(out[0], Outbound::SetCompression { threshold: 256 }));
    assert!(matches!(out[1], Outbound::LoginSuccess { .. }));
    assert!(!conn.proxy_pending);
    assert!(conn.profile.is_some());
}
