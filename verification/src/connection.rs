//! The per-connection state machine: phases, one-shot mode switches, and the
//! handler owed for each inbound event in each phase.

use vstd::prelude::*;
use vstd::string::StrSliceExecFns;
use vstd::string::StringExecFns;
use crate::disconnect::{AuthFailure, DisconnectReason};
use crate::outside::{bytes_to_utf8, derive_dns_uuid, dns_name_uuid, random_verify_token};
use crate::packets::{
    ClientInformation, DecryptedSecrets, Handshake, InboundEvent, KnownPackEntry,
    LoginPluginResponse, LoginStart, NextState, Outbound, PingRequest, PluginMessage, ProxyVariant,
    CURRENT_PROTOCOL,
};
use crate::player::{
    chat_mode_from_i32, hand_from_i32, spec_chat_mode_from_i32, spec_hand_from_i32, PlayerConfig,
};
use crate::policy::{banned, evaluate_profile, has_disallowed_action, textures_ok};
use crate::profile::{copy_properties, props_equiv, GameProfile};
use crate::server::{
    copy_bytes, copy_entries, entries_equiv, ProxyMode, Registry, ResourcePackPolicy, ServerData,
};
use crate::text::str_has_prefix;
use vstd::utf8::{decode_utf8, valid_utf8};

verus! {

/// The ordered protocol phases; `Closed` is terminal and reachable from all.
#[derive(Clone, Copy, PartialEq, Eq, Structural, Debug)]
pub enum ConnectionState {
    Handshake,
    Status,
    Login,
    Config,
    Play,
    Closed,
}

/// Rank of a phase; every transition moves the rank forward.
pub open spec fn state_index(s: ConnectionState) -> int {
    match s {
        ConnectionState::Handshake => 0,
        ConnectionState::Status => 1,
        ConnectionState::Login => 2,
        ConnectionState::Config => 3,
        ConnectionState::Play => 4,
        ConnectionState::Closed => 5,
    }
}

/// One session's state. Cipher and compression contexts appear at most once
/// and are never removed; the profile is finalized at most once.
#[derive(Debug)]
pub struct Connection {
    pub protocol_version: i32,
    pub server_address: String,
    pub state: ConnectionState,
    pub verify_token: Option<[u8; 4]>,
    pub encryption: Option<Vec<u8>>,
    pub compression: Option<u32>,
    pub profile: Option<GameProfile>,
    pub config: Option<PlayerConfig>,
    pub brand: Option<String>,
    pub proxy_pending: bool,
    pub auth_pending: bool,
    pub make_player: bool,
}

/// Everything but the phase agrees between the two values.
pub open spec fn same_but_state(a: Connection, b: Connection) -> bool {
    &&& b.protocol_version == a.protocol_version
    &&& b.server_address == a.server_address
    &&& b.verify_token == a.verify_token
    &&& b.encryption == a.encryption
    &&& b.compression == a.compression
    &&& b.profile == a.profile
    &&& b.config == a.config
    &&& b.brand == a.brand
    &&& b.proxy_pending == a.proxy_pending
    &&& b.auth_pending == a.auth_pending
    &&& b.make_player == a.make_player
}

/// A username the identity resolver accepts: at most sixteen characters,
/// each strictly between the space and delete code points.
pub open spec fn valid_player_name(s: Seq<char>) -> bool {
    s.len() <= 16 && forall|i: int|
        0 <= i < s.len() ==> ((#[trigger] s[i]) as u32 > 32 && (s[i] as u32) < 127)
}

/// Some action of the sequence is a disconnect.
pub open spec fn has_kick(out: Seq<Outbound>) -> bool {
    exists|i: int| 0 <= i < out.len() && #[trigger] out[i] is Kick
}

/// Some action of the sequence is a login confirmation.
pub open spec fn has_login_success(out: Seq<Outbound>) -> bool {
    exists|i: int| 0 <= i < out.len() && #[trigger] out[i] is LoginSuccess
}

/// The action confirms login for exactly this profile.
pub open spec fn is_login_success_for(o: Outbound, p: GameProfile) -> bool {
    &&& o matches Outbound::LoginSuccess { id, name, properties, strict_error_handling }
    &&& id == p.id
    &&& name@ == p.name@
    &&& props_equiv(properties@, p.properties@)
    &&& !strict_error_handling
}

/// The actions owed when a login finishes: the compression threshold exactly
/// once and strictly first when compression is enabled, then the login
/// confirmation for the finalized profile.
pub open spec fn login_success_outputs(
    out: Seq<Outbound>,
    p: GameProfile,
    enabled: bool,
    threshold: u32,
) -> bool {
    if enabled {
        &&& out.len() == 2
        &&& out[0] == (Outbound::SetCompression { threshold })
        &&& is_login_success_for(out[1], p)
    } else {
        &&& out.len() == 1
        &&& is_login_success_for(out[0], p)
    }
}

/// The decrypted reply's token does not spell the issued token.
pub open spec fn token_mismatch(pre: Connection, d: DecryptedSecrets) -> bool {
    pre.verify_token matches Some(t) && d.verify_token@ != t@
}

/// Post-state of the encryption handler on a verify-token mismatch: fatal,
/// nothing else touched, the cipher never enabled.
pub open spec fn encryption_mismatch_post(
    pre: Connection,
    post: Connection,
    out: Seq<Outbound>,
) -> bool {
    &&& post.state == ConnectionState::Closed
    &&& same_but_state(pre, post)
    &&& out.len() == 1
    &&& out[0] matches Outbound::Kick(r) && r matches DisconnectReason::EncryptionFailure {
        detail,
    } && detail@ == "Verify token mismatch"@
}

/// Post-state of the encryption handler after a successful decryption whose
/// token matches: the cipher is switched on once and first; then either
/// authentication is owed, or the missing service is fatal, or the login
/// finishes directly.
pub open spec fn encryption_success_post(
    pre: Connection,
    post: Connection,
    out: Seq<Outbound>,
    server: ServerData,
    d: DecryptedSecrets,
) -> bool {
    &&& post.encryption matches Some(s) && s@ == d.shared_secret@
    &&& out.len() >= 1 && out[0] == Outbound::EnableEncryption
    &&& server.settings.online_mode && server.settings.auth.service_available ==> {
        &&& post.state == ConnectionState::Login
        &&& post.auth_pending
        &&& post.compression is None
        &&& out.len() == 2
        &&& out[1] matches Outbound::BeginAuthentication { username } && (pre.profile matches Some(
            p,
        ) && username@ == p.name@)
    }
    &&& server.settings.online_mode && !server.settings.auth.service_available ==> {
        &&& post.state == ConnectionState::Closed
        &&& !post.auth_pending
        &&& post.compression is None
        &&& out.len() == 2
        &&& out[1] == Outbound::Kick(
            DisconnectReason::AuthenticationFailure { failure: AuthFailure::MissingService },
        )
    }
    &&& !server.settings.online_mode ==> {
        &&& post.state == ConnectionState::Login
        &&& !post.auth_pending
        &&& (pre.profile matches Some(p) ==> login_success_outputs(
            out.skip(1),
            p,
            server.settings.compression.enabled,
            server.settings.compression.threshold,
        ))
        &&& out.len() == (if server.settings.compression.enabled {
            3int
        } else {
            2int
        })
        &&& (server.settings.compression.enabled ==> post.compression == Some(
            server.settings.compression.threshold,
        ))
        &&& (!server.settings.compression.enabled ==> post.compression is None)
    }
}

/// Whether the decrypted verify token spells the issued four-byte token.
fn token_matches(v: &Vec<u8>, t: &[u8; 4]) -> (r: bool)
    ensures
        r == (v@ == t@),
{
    proof {
        assert(t@.len() == 4);
    }
    if v.len() != 4 {
        return false;
    }
    if v[0] == t[0] && v[1] == t[1] && v[2] == t[2] && v[3] == t[3] {
        proof {
            assert(v@ =~= t@);
        }
        true
    } else {
        false
    }
}

impl Connection {
    /// A fresh session, in the handshake phase with nothing negotiated.
    pub fn new() -> (c: Connection)
        ensures
            c.state == ConnectionState::Handshake,
            c.protocol_version == 0,
            c.server_address@ == Seq::<char>::empty(),
            c.verify_token is None,
            c.encryption is None,
            c.compression is None,
            c.profile is None,
            c.config is None,
            c.brand is None,
            !c.proxy_pending,
            !c.auth_pending,
            !c.make_player,
    {
        Connection {
            protocol_version: 0,
            server_address: String::new(),
            state: ConnectionState::Handshake,
            verify_token: None,
            encryption: None,
            compression: None,
            profile: None,
            config: None,
            brand: None,
            proxy_pending: false,
            auth_pending: false,
            make_player: false,
        }
    }

    /// Terminal exit: the disconnect reason is owed to the client and the
    /// session accepts nothing further.
    pub fn kick(&mut self, reason: DisconnectReason) -> (out: Vec<Outbound>)
        ensures
            final(self).state == ConnectionState::Closed,
            same_but_state(*old(self), *final(self)),
            out@.len() == 1,
            out@[0] == Outbound::Kick(reason),
    {
        self.state = ConnectionState::Closed;
        let mut out: Vec<Outbound> = Vec::new();
        out.push(Outbound::Kick(reason));
        out
    }

    /// Whether the identity resolver accepts this username.
    pub fn is_valid_player_name(name: &str) -> (r: bool)
        ensures
            r == valid_player_name(name@),
    {
        let len = name.unicode_len();
        if len > 16 {
            return false;
        }
        let mut i: usize = 0;
        while i < len
            invariant
                i <= len,
                len == name@.len(),
                len <= 16,
                forall|j: int|
                    0 <= j < i ==> ((#[trigger] name@[j]) as u32 > 32 && (name@[j] as u32) < 127),
            decreases len - i,
        {
            let c = name.get_char(i);
            if c as u32 <= 32 || c as u32 >= 127 {
                return false;
            }
            i += 1;
        }
        true
    }

    /// Version negotiation: records the declared version and address, moves to
    /// the declared phase, and kicks on a version mismatch unless the client
    /// only asks for status.
    pub fn handle_handshake(&mut self, handshake: Handshake) -> (out: Vec<Outbound>)
        requires
            old(self).state == ConnectionState::Handshake,
        ensures
            final(self).protocol_version == handshake.protocol_version,
            final(self).server_address == handshake.server_address,
            final(self).verify_token == old(self).verify_token,
            final(self).encryption == old(self).encryption,
            final(self).compression == old(self).compression,
            final(self).profile == old(self).profile,
            final(self).config == old(self).config,
            final(self).brand == old(self).brand,
            final(self).proxy_pending == old(self).proxy_pending,
            final(self).auth_pending == old(self).auth_pending,
            final(self).make_player == old(self).make_player,
            handshake.next_state == NextState::Status ==> final(self).state
                == ConnectionState::Status && out@.len() == 0,
            handshake.next_state == NextState::Login && handshake.protocol_version
                < CURRENT_PROTOCOL ==> final(self).state == ConnectionState::Closed && out@.len()
                == 1 && out@[0] == Outbound::Kick(
                DisconnectReason::OutdatedClient { client_version: handshake.protocol_version },
            ),
            handshake.next_state == NextState::Login && handshake.protocol_version
                > CURRENT_PROTOCOL ==> final(self).state == ConnectionState::Closed && out@.len()
                == 1 && out@[0] == Outbound::Kick(DisconnectReason::OutdatedServer),
            handshake.next_state == NextState::Login && handshake.protocol_version
                == CURRENT_PROTOCOL ==> final(self).state == ConnectionState::Login && out@.len()
                == 0,
    {
        self.protocol_version = handshake.protocol_version;
        self.server_address = handshake.server_address;
        match handshake.next_state {
            NextState::Status => {
                self.state = ConnectionState::Status;
                Vec::new()
            },
            NextState::Login => {
                self.state = ConnectionState::Login;
                if handshake.protocol_version < CURRENT_PROTOCOL {
                    self.kick(
                        DisconnectReason::OutdatedClient {
                            client_version: handshake.protocol_version,
                        },
                    )
                } else if handshake.protocol_version > CURRENT_PROTOCOL {
                    self.kick(DisconnectReason::OutdatedServer)
                } else {
                    Vec::new()
                }
            },
        }
    }

    /// Status query: answers with the server-description payload; the session
    /// is untouched.
    pub fn handle_status_request(&self, server: &ServerData) -> (out: Vec<Outbound>)
        requires
            self.state == ConnectionState::Status,
        ensures
            out@.len() == 1,
            out@[0] matches Outbound::StatusResponse(s) && s@ == server.status@,
    {
        let mut out: Vec<Outbound> = Vec::new();
        out.push(Outbound::StatusResponse(server.status.clone()));
        out
    }

    /// Ping: echoes the opaque payload verbatim, then closes the session.
    pub fn handle_ping_request(&mut self, ping: PingRequest) -> (out: Vec<Outbound>)
        requires
            old(self).state == ConnectionState::Status,
        ensures
            final(self).state == ConnectionState::Closed,
            same_but_state(*old(self), *final(self)),
            out@.len() == 1,
            out@[0] matches Outbound::PingResponse(p) && p@ == ping.payload@,
    {
        let mut out: Vec<Outbound> = Vec::new();
        out.push(Outbound::PingResponse(ping.payload));
        self.state = ConnectionState::Closed;
        out
    }

    /// Identity resolution: rejects invalid usernames, delegates to the
    /// configured proxy variant, or builds the provisional profile and opens
    /// the encryption handshake (unconditionally, even when online-mode
    /// authentication will not be required).
    pub fn handle_login_start(&mut self, server: &ServerData, login_start: LoginStart) -> (out:
        Vec<Outbound>)
        requires
            old(self).state == ConnectionState::Login,
            old(self).profile is None,
            old(self).verify_token is None,
            !old(self).proxy_pending,
            !old(self).auth_pending,
        ensures
            final(self).protocol_version == old(self).protocol_version,
            final(self).server_address == old(self).server_address,
            final(self).encryption == old(self).encryption,
            final(self).compression == old(self).compression,
            final(self).config == old(self).config,
            final(self).brand == old(self).brand,
            final(self).auth_pending == old(self).auth_pending,
            final(self).make_player == old(self).make_player,
            !valid_player_name(login_start.name@) ==> final(self).state
                == ConnectionState::Closed && same_but_state(*old(self), *final(self))
                && out@.len() == 1 && out@[0] == Outbound::Kick(DisconnectReason::InvalidUsername),
            valid_player_name(login_start.name@) && server.settings.proxy == ProxyMode::Velocity
                ==> final(self).state == ConnectionState::Login && final(self).proxy_pending
                && final(self).profile is None && final(self).verify_token is None && out@.len()
                == 1 && out@[0] == Outbound::BeginProxyLogin(ProxyVariant::Velocity),
            valid_player_name(login_start.name@) && server.settings.proxy == ProxyMode::Bungeecord
                ==> final(self).state == ConnectionState::Login && final(self).proxy_pending
                && final(self).profile is None && final(self).verify_token is None && out@.len()
                == 1 && out@[0] == Outbound::BeginProxyLogin(ProxyVariant::Bungeecord),
            valid_player_name(login_start.name@) && server.settings.proxy == ProxyMode::Direct
                ==> {
                &&& final(self).state == ConnectionState::Login
                &&& !final(self).proxy_pending
                &&& final(self).profile matches Some(p) && p.id == login_start.uuid && p.name@
                    == login_start.name@ && p.properties@.len() == 0 && p.profile_actions is None
                &&& final(self).verify_token is Some
                &&& out@.len() == 1
                &&& out@[0] matches Outbound::EncryptionRequest {
                    public_key,
                    verify_token,
                    should_authenticate,
                } && public_key@ == server.public_key@ && Some(verify_token)
                    == final(self).verify_token && should_authenticate
                    == server.settings.online_mode
            },
    {
        if !Self::is_valid_player_name(login_start.name.as_str()) {
            return self.kick(DisconnectReason::InvalidUsername);
        }
        match server.settings.proxy {
            ProxyMode::Velocity => {
                self.proxy_pending = true;
                let mut out: Vec<Outbound> = Vec::new();
                out.push(Outbound::BeginProxyLogin(ProxyVariant::Velocity));
                out
            },
            ProxyMode::Bungeecord => {
                self.proxy_pending = true;
                let mut out: Vec<Outbound> = Vec::new();
                out.push(Outbound::BeginProxyLogin(ProxyVariant::Bungeecord));
                out
            },
            ProxyMode::Direct => {
                self.profile = Some(
                    GameProfile {
                        id: login_start.uuid,
                        name: login_start.name,
                        properties: Vec::new(),
                        profile_actions: None,
                    },
                );
                let token = random_verify_token();
                self.verify_token = Some(token);
                let mut out: Vec<Outbound> = Vec::new();
                out.push(
                    Outbound::EncryptionRequest {
                        public_key: copy_bytes(&server.public_key),
                        verify_token: token,
                        should_authenticate: server.settings.online_mode,
                    },
                );
                out
            },
        }
    }

    /// Compression activation and login confirmation: announces the threshold
    /// and switches on compressed framing exactly once when configured, then
    /// confirms login for the finalized profile.
    pub fn finish_login(&mut self, server: &ServerData) -> (out: Vec<Outbound>)
        requires
            old(self).profile is Some,
            old(self).compression is None,
        ensures
            final(self).protocol_version == old(self).protocol_version,
            final(self).server_address == old(self).server_address,
            final(self).state == old(self).state,
            final(self).verify_token == old(self).verify_token,
            final(self).encryption == old(self).encryption,
            final(self).profile == old(self).profile,
            final(self).config == old(self).config,
            final(self).brand == old(self).brand,
            final(self).proxy_pending == old(self).proxy_pending,
            final(self).auth_pending == old(self).auth_pending,
            final(self).make_player == old(self).make_player,
            old(self).profile matches Some(p) ==> login_success_outputs(
                out@,
                p,
                server.settings.compression.enabled,
                server.settings.compression.threshold,
            ),
            server.settings.compression.enabled ==> final(self).compression == Some(
                server.settings.compression.threshold,
            ),
            !server.settings.compression.enabled ==> final(self).compression is None,
    {
        let mut out: Vec<Outbound> = Vec::new();
        if server.settings.compression.enabled {
            let threshold = server.settings.compression.threshold;
            out.push(Outbound::SetCompression { threshold });
            self.compression = Some(threshold);
        }
        let confirmation = match &self.profile {
            Some(p) => Outbound::LoginSuccess {
                id: p.id,
                name: p.name.clone(),
                properties: copy_properties(&p.properties),
                strict_error_handling: false,
            },
            None => {
                proof {
                    assert(false);
                }
                vstd::pervasive::unreached()
            },
        };
        out.push(confirmation);
        out
    }

    /// Encryption activation: a decryption failure or verify-token mismatch is
    /// fatal; on success the stream cipher is switched on once, and either
    /// authentication is owed (online mode with a configured service), the
    /// missing service is fatal, or the login finishes directly.
    pub fn handle_encryption_response(
        &mut self,
        server: &ServerData,
        response: Result<DecryptedSecrets, String>,
    ) -> (out: Vec<Outbound>)
        requires
            old(self).state == ConnectionState::Login,
            old(self).verify_token is Some,
            old(self).profile is Some,
            old(self).encryption is None,
            old(self).compression is None,
            !old(self).proxy_pending,
            !old(self).auth_pending,
        ensures
            final(self).protocol_version == old(self).protocol_version,
            final(self).server_address == old(self).server_address,
            final(self).verify_token == old(self).verify_token,
            final(self).profile == old(self).profile,
            final(self).config == old(self).config,
            final(self).brand == old(self).brand,
            final(self).proxy_pending == old(self).proxy_pending,
            final(self).make_player == old(self).make_player,
            response matches Err(e) ==> final(self).state == ConnectionState::Closed
                && same_but_state(*old(self), *final(self)) && out@.len() == 1 && out@[0]
                == Outbound::Kick(DisconnectReason::EncryptionFailure { detail: e }),
            response matches Ok(d) ==> (if token_mismatch(*old(self), d) {
                encryption_mismatch_post(*old(self), *final(self), out@)
            } else {
                encryption_success_post(*old(self), *final(self), out@, *server, d)
            }),
    {
        match response {
            Err(e) => self.kick(DisconnectReason::EncryptionFailure { detail: e }),
            Ok(d) => {
                let token_ok = match &self.verify_token {
                    Some(t) => token_matches(&d.verify_token, t),
                    None => {
                        proof {
                            assert(false);
                        }
                        vstd::pervasive::unreached()
                    },
                };
                if !token_ok {
                    return self.kick(
                        DisconnectReason::EncryptionFailure {
                            detail: String::from_str("Verify token mismatch"),
                        },
                    );
                }
                self.encryption = Some(d.shared_secret);
                let mut out: Vec<Outbound> = Vec::new();
                out.push(Outbound::EnableEncryption);
                if server.settings.online_mode {
                    if server.settings.auth.service_available {
                        self.auth_pending = true;
                        let username = match &self.profile {
                            Some(p) => p.name.clone(),
                            None => {
                                proof {
                                    assert(false);
                                }
                                vstd::pervasive::unreached()
                            },
                        };
                        out.push(Outbound::BeginAuthentication { username });
                    } else {
                        self.state = ConnectionState::Closed;
                        out.push(
                            Outbound::Kick(
                                DisconnectReason::AuthenticationFailure {
                                    failure: AuthFailure::MissingService,
                                },
                            ),
                        );
                    }
                } else {
                    let mut rest = self.finish_login(server);
                    let ghost rest_view = rest@;
                    out.append(&mut rest);
                    proof {
                        assert(out@.skip(1) =~= rest_view);
                    }
                }
                out
            },
        }
    }

    /// Policy enforcement on the authenticator's outcome: a failed query is
    /// fatal with that failure's description; a verified profile is kicked on
    /// its first policy violation, or finalized and its login finished.
    pub fn handle_auth_result(
        &mut self,
        server: &ServerData,
        result: Result<GameProfile, AuthFailure>,
    ) -> (out: Vec<Outbound>)
        requires
            old(self).state == ConnectionState::Login,
            old(self).auth_pending,
            old(self).compression is None,
        ensures
            final(self).protocol_version == old(self).protocol_version,
            final(self).server_address == old(self).server_address,
            final(self).verify_token == old(self).verify_token,
            final(self).encryption == old(self).encryption,
            final(self).config == old(self).config,
            final(self).brand == old(self).brand,
            final(self).proxy_pending == old(self).proxy_pending,
            final(self).make_player == old(self).make_player,
            result matches Err(f) ==> final(self).state == ConnectionState::Closed
                && same_but_state(*old(self), *final(self)) && out@.len() == 1 && out@[0]
                == Outbound::Kick(DisconnectReason::AuthenticationFailure { failure: f }),
            result matches Ok(p) ==> auth_ok_post(*old(self), *final(self), out@, *server, p),
    {
        match result {
            Err(f) => self.kick(DisconnectReason::AuthenticationFailure { failure: f }),
            Ok(p) => {
                match evaluate_profile(&p, &server.settings.auth) {
                    Some(reason) => self.kick(reason),
                    None => {
                        self.profile = Some(p);
                        self.auth_pending = false;
                        self.finish_login(server)
                    },
                }
            },
        }
    }

    /// The proxy adapter's outcome: a failure is fatal with its description;
    /// an authoritative identity is finalized and its login finished.
    pub fn handle_proxy_result(
        &mut self,
        server: &ServerData,
        result: Result<GameProfile, String>,
    ) -> (out: Vec<Outbound>)
        requires
            old(self).state == ConnectionState::Login,
            old(self).proxy_pending,
            old(self).compression is None,
        ensures
            final(self).protocol_version == old(self).protocol_version,
            final(self).server_address == old(self).server_address,
            final(self).verify_token == old(self).verify_token,
            final(self).encryption == old(self).encryption,
            final(self).config == old(self).config,
            final(self).brand == old(self).brand,
            final(self).auth_pending == old(self).auth_pending,
            final(self).make_player == old(self).make_player,
            result matches Err(e) ==> final(self).state == ConnectionState::Closed
                && same_but_state(*old(self), *final(self)) && out@.len() == 1 && out@[0]
                == Outbound::Kick(DisconnectReason::ProxyHandshakeFailure { detail: e }),
            result matches Ok(p) ==> {
                &&& final(self).state == ConnectionState::Login
                &&& final(self).profile == Some(p)
                &&& !final(self).proxy_pending
                &&& login_success_outputs(
                    out@,
                    p,
                    server.settings.compression.enabled,
                    server.settings.compression.threshold,
                )
                &&& (server.settings.compression.enabled ==> final(self).compression == Some(
                    server.settings.compression.threshold,
                ))
                &&& (!server.settings.compression.enabled ==> final(self).compression is None)
            },
    {
        match result {
            Err(e) => self.kick(DisconnectReason::ProxyHandshakeFailure { detail: e }),
            Ok(p) => {
                self.profile = Some(p);
                self.proxy_pending = false;
                self.finish_login(server)
            },
        }
    }

    /// A login plugin reply belongs to the running proxy handshake and is
    /// handed to its adapter untouched.
    pub fn handle_plugin_response(&self, response: LoginPluginResponse) -> (out: Vec<Outbound>)
        requires
            self.state == ConnectionState::Login,
            self.proxy_pending,
        ensures
            out@.len() == 1,
            out@[0] == Outbound::ForwardToProxy(response),
    {
        let mut out: Vec<Outbound> = Vec::new();
        out.push(Outbound::ForwardToProxy(response));
        out
    }

    /// Opens the configuration phase: branding, the resource-pack offer when
    /// one is configured (its identifier derived from the URL alone), and the
    /// supported data-pack list.
    pub fn handle_login_acknowledged(&mut self, server: &ServerData) -> (out: Vec<Outbound>)
        requires
            old(self).state == ConnectionState::Login,
        ensures
            final(self).state == ConnectionState::Config,
            same_but_state(*old(self), *final(self)),
            config_opening_outputs(out@, *server),
    {
        self.state = ConnectionState::Config;
        let mut out: Vec<Outbound> = Vec::new();
        out.push(Outbound::Brand(server.branding.clone()));
        let rp = &server.settings.resource_pack;
        if rp.enabled {
            let id = derive_dns_uuid(rp.url.as_str());
            let prompt = if rp.prompt_message.as_str().is_empty() {
                None
            } else {
                Some(rp.prompt_message.clone())
            };
            out.push(
                Outbound::AddResourcePack {
                    id,
                    url: rp.url.clone(),
                    sha1: rp.sha1.clone(),
                    forced: rp.force,
                    prompt,
                },
            );
        }
        let mut packs: Vec<KnownPackEntry> = Vec::new();
        packs.push(
            KnownPackEntry {
                namespace: String::from_str("minecraft"),
                id: String::from_str("core"),
                version: String::from_str("1.21"),
            },
        );
        out.push(Outbound::KnownPacks(packs));
        out
    }

    /// Stores the client's display settings wholesale, or kicks when the hand
    /// or chat-mode enumeration cannot be decoded.
    pub fn handle_client_information_config(&mut self, info: ClientInformation) -> (out: Vec<
        Outbound,
    >)
        requires
            old(self).state == ConnectionState::Config,
        ensures
            final(self).protocol_version == old(self).protocol_version,
            final(self).server_address == old(self).server_address,
            final(self).verify_token == old(self).verify_token,
            final(self).encryption == old(self).encryption,
            final(self).compression == old(self).compression,
            final(self).profile == old(self).profile,
            final(self).brand == old(self).brand,
            final(self).proxy_pending == old(self).proxy_pending,
            final(self).auth_pending == old(self).auth_pending,
            final(self).make_player == old(self).make_player,
            spec_hand_from_i32(info.main_hand as int) is Some && spec_chat_mode_from_i32(
                info.chat_mode as int,
            ) is Some ==> final(self).state == ConnectionState::Config && out@.len() == 0
                && (final(self).config matches Some(c) && player_config_matches(c, info)),
            spec_hand_from_i32(info.main_hand as int) is None || spec_chat_mode_from_i32(
                info.chat_mode as int,
            ) is None ==> final(self).state == ConnectionState::Closed && same_but_state(
                *old(self),
                *final(self),
            ) && out@.len() == 1 && (out@[0] matches Outbound::Kick(r) && r matches
                DisconnectReason::MalformedClientPayload { detail } && detail@
                == "Invalid hand or chat type"@),
    {
        let hand = hand_from_i32(info.main_hand);
        let chat = chat_mode_from_i32(info.chat_mode);
        match (hand, chat) {
            (Some(h), Some(cm)) => {
                self.config = Some(
                    PlayerConfig {
                        locale: info.locale,
                        view_distance: info.view_distance,
                        chat_mode: cm,
                        chat_colors: info.chat_colors,
                        skin_parts: info.skin_parts,
                        main_hand: h,
                        text_filtering: info.text_filtering,
                        server_listing: info.server_listing,
                    },
                );
                Vec::new()
            },
            _ => self.kick(
                DisconnectReason::MalformedClientPayload {
                    detail: String::from_str("Invalid hand or chat type"),
                },
            ),
        }
    }

    /// A plugin message on a brand channel stores the client's brand, or kicks
    /// when the payload is not valid text; other channels are ignored.
    pub fn handle_plugin_message(&mut self, message: PluginMessage) -> (out: Vec<Outbound>)
        requires
            old(self).state == ConnectionState::Config,
        ensures
            final(self).protocol_version == old(self).protocol_version,
            final(self).server_address == old(self).server_address,
            final(self).verify_token == old(self).verify_token,
            final(self).encryption == old(self).encryption,
            final(self).compression == old(self).compression,
            final(self).profile == old(self).profile,
            final(self).config == old(self).config,
            final(self).proxy_pending == old(self).proxy_pending,
            final(self).auth_pending == old(self).auth_pending,
            final(self).make_player == old(self).make_player,
            !is_brand_channel(message.channel@) ==> *final(self) == *old(self) && out@.len() == 0,
            is_brand_channel(message.channel@) && valid_utf8(message.data@) ==> final(self).state
                == ConnectionState::Config && out@.len() == 0 && (final(self).brand matches Some(b)
                && b@ == decode_utf8(message.data@)),
            is_brand_channel(message.channel@) && !valid_utf8(message.data@) ==> final(self).state
                == ConnectionState::Closed && same_but_state(*old(self), *final(self)) && out@.len()
                == 1 && (out@[0] matches Outbound::Kick(r) && r matches
                DisconnectReason::MalformedClientPayload { detail } && detail@
                == "Brand payload is not valid text"@),
    {
        if str_has_prefix(message.channel.as_str(), "minecraft:brand") || str_has_prefix(
            message.channel.as_str(),
            "MC|Brand",
        ) {
            match bytes_to_utf8(message.data) {
                Some(brand) => {
                    self.brand = Some(brand);
                    Vec::new()
                },
                None => self.kick(
                    DisconnectReason::MalformedClientPayload {
                        detail: String::from_str("Brand payload is not valid text"),
                    },
                ),
            }
        } else {
            Vec::new()
        }
    }

    /// The client acknowledged the known packs: streams every cached registry
    /// dataset in the server's stored order, then the finish signal.
    pub fn handle_known_packs(&self, server: &ServerData) -> (out: Vec<Outbound>)
        requires
            self.state == ConnectionState::Config,
        ensures
            out@.len() == server.registries@.len() + 1,
            forall|i: int|
                0 <= i < server.registries@.len() ==> is_registry_data_for(
                    #[trigger] out@[i],
                    server.registries@[i],
                ),
            out@[server.registries@.len() as int] == Outbound::FinishConfig,
    {
        let mut out: Vec<Outbound> = Vec::new();
        let mut i: usize = 0;
        while i < server.registries.len()
            invariant
                i <= server.registries.len(),
                out@.len() == i,
                forall|j: int|
                    0 <= j < i ==> is_registry_data_for(#[trigger] out@[j], server.registries@[j]),
            decreases server.registries.len() - i,
        {
            let reg = &server.registries[i];
            out.push(
                Outbound::RegistryData {
                    registry_id: reg.registry_id.clone(),
                    entries: copy_entries(&reg.entries),
                },
            );
            i += 1;
        }
        out.push(Outbound::FinishConfig);
        out
    }

    /// The client acknowledged the finished configuration: the session enters
    /// the steady-state phase and is ready to be promoted into gameplay.
    pub fn handle_config_acknowledged(&mut self) -> (out: Vec<Outbound>)
        requires
            old(self).state == ConnectionState::Config,
        ensures
            final(self).state == ConnectionState::Play,
            final(self).make_player,
            final(self).protocol_version == old(self).protocol_version,
            final(self).server_address == old(self).server_address,
            final(self).verify_token == old(self).verify_token,
            final(self).encryption == old(self).encryption,
            final(self).compression == old(self).compression,
            final(self).profile == old(self).profile,
            final(self).config == old(self).config,
            final(self).brand == old(self).brand,
            final(self).proxy_pending == old(self).proxy_pending,
            final(self).auth_pending == old(self).auth_pending,
            out@.len() == 0,
    {
        self.state = ConnectionState::Play;
        self.make_player = true;
        Vec::new()
    }

    /// The top-level driver: routes one inbound event to the handler valid in
    /// the current phase; an event not valid there is discarded. Phases only
    /// move forward, a closed session stays silent, the one-shot cipher and
    /// compression contexts are never replaced, and any disconnect closes.
    pub fn handle_event(&mut self, server: &ServerData, event: InboundEvent) -> (out: Vec<Outbound>)
        ensures
            state_index(old(self).state) <= state_index(final(self).state),
            old(self).state == ConnectionState::Closed ==> *final(self) == *old(self) && out@.len()
                == 0,
            old(self).state == ConnectionState::Play ==> *final(self) == *old(self) && out@.len()
                == 0,
            old(self).encryption is Some ==> final(self).encryption == old(self).encryption,
            old(self).compression is Some ==> final(self).compression == old(self).compression,
            state_index(old(self).state) >= 3 ==> final(self).profile == old(self).profile,
            has_kick(out@) ==> final(self).state == ConnectionState::Closed,
            has_login_success(out@) ==> final(self).profile is Some,
            !event_valid(*old(self), event) ==> *final(self) == *old(self) && out@.len() == 0,
            event_outcome(*old(self), *final(self), out@, *server, event),
    {
        match event {
            InboundEvent::Handshake(h) => {
                if self.state == ConnectionState::Handshake {
                    self.handle_handshake(h)
                } else {
                    Vec::new()
                }
            },
            InboundEvent::StatusRequest => {
                if self.state == ConnectionState::Status {
                    self.handle_status_request(server)
                } else {
                    Vec::new()
                }
            },
            InboundEvent::PingRequest(p) => {
                if self.state == ConnectionState::Status {
                    self.handle_ping_request(p)
                } else {
                    Vec::new()
                }
            },
            InboundEvent::LoginStart(ls) => {
                if self.state == ConnectionState::Login && self.profile.is_none()
                    && self.verify_token.is_none() && !self.proxy_pending && !self.auth_pending {
                    self.handle_login_start(server, ls)
                } else {
                    Vec::new()
                }
            },
            InboundEvent::EncryptionResponse(r) => {
                if self.state == ConnectionState::Login && self.verify_token.is_some()
                    && self.profile.is_some() && self.encryption.is_none()
                    && self.compression.is_none() && !self.proxy_pending && !self.auth_pending {
                    self.handle_encryption_response(server, r)
                } else {
                    Vec::new()
                }
            },
            InboundEvent::PluginResponse(pr) => {
                if self.state == ConnectionState::Login && self.proxy_pending {
                    self.handle_plugin_response(pr)
                } else {
                    Vec::new()
                }
            },
            InboundEvent::ProxyIdentity(r) => {
                if self.state == ConnectionState::Login && self.proxy_pending
                    && self.compression.is_none() {
                    self.handle_proxy_result(server, r)
                } else {
                    Vec::new()
                }
            },
            InboundEvent::AuthenticationResult(r) => {
                if self.state == ConnectionState::Login && self.auth_pending
                    && self.compression.is_none() {
                    self.handle_auth_result(server, r)
                } else {
                    Vec::new()
                }
            },
            InboundEvent::LoginAcknowledged => {
                if self.state == ConnectionState::Login {
                    self.handle_login_acknowledged(server)
                } else {
                    Vec::new()
                }
            },
            InboundEvent::ClientInformation(ci) => {
                if self.state == ConnectionState::Config {
                    self.handle_client_information_config(ci)
                } else {
                    Vec::new()
                }
            },
            InboundEvent::PluginMessage(pm) => {
                if self.state == ConnectionState::Config {
                    self.handle_plugin_message(pm)
                } else {
                    Vec::new()
                }
            },
            InboundEvent::KnownPacks => {
                if self.state == ConnectionState::Config {
                    self.handle_known_packs(server)
                } else {
                    Vec::new()
                }
            },
            InboundEvent::AcknowledgeFinishConfig => {
                if self.state == ConnectionState::Config {
                    self.handle_config_acknowledged()
                } else {
                    Vec::new()
                }
            },
        }
    }
}

/// Post-state of the authentication handler on a verified profile: kicked on
/// the first policy violation, otherwise finalized with its login finished.
pub open spec fn auth_ok_post(
    pre: Connection,
    post: Connection,
    out: Seq<Outbound>,
    server: ServerData,
    p: GameProfile,
) -> bool {
    if banned(p, server.settings.auth) || has_disallowed_action(p, server.settings.auth) {
        &&& post.state == ConnectionState::Closed
        &&& same_but_state(pre, post)
        &&& out.len() == 1
        &&& out[0] == Outbound::Kick(DisconnectReason::PolicyDenied)
    } else if !textures_ok(p, server.settings.auth.textures) {
        &&& post.state == ConnectionState::Closed
        &&& same_but_state(pre, post)
        &&& out.len() == 1
        &&& out[0] matches Outbound::Kick(r) && r matches DisconnectReason::AuthenticationFailure {
            failure,
        } && failure is TextureInvalid
    } else {
        &&& post.state == ConnectionState::Login
        &&& post.profile == Some(p)
        &&& !post.auth_pending
        &&& login_success_outputs(
            out,
            p,
            server.settings.compression.enabled,
            server.settings.compression.threshold,
        )
        &&& (server.settings.compression.enabled ==> post.compression == Some(
            server.settings.compression.threshold,
        ))
        &&& (!server.settings.compression.enabled ==> post.compression is None)
    }
}

/// The channel names reserved for the client's brand, in either legacy spelling.
pub open spec fn is_brand_channel(c: Seq<char>) -> bool {
    "minecraft:brand"@.is_prefix_of(c) || "MC|Brand"@.is_prefix_of(c)
}

/// The stored settings spell exactly what the client declared.
pub open spec fn player_config_matches(c: PlayerConfig, info: ClientInformation) -> bool {
    &&& c.locale@ == info.locale@
    &&& c.view_distance == info.view_distance
    &&& Some(c.chat_mode) == spec_chat_mode_from_i32(info.chat_mode as int)
    &&& c.chat_colors == info.chat_colors
    &&& c.skin_parts == info.skin_parts
    &&& Some(c.main_hand) == spec_hand_from_i32(info.main_hand as int)
    &&& c.text_filtering == info.text_filtering
    &&& c.server_listing == info.server_listing
}

/// The action streams exactly this cached registry dataset.
pub open spec fn is_registry_data_for(o: Outbound, r: Registry) -> bool {
    &&& o matches Outbound::RegistryData { registry_id, entries }
    &&& registry_id@ == r.registry_id@
    &&& entries_equiv(entries@, r.entries@)
}

/// The branding action carries the server's branding payload.
pub open spec fn is_branding_for(o: Outbound, server: ServerData) -> bool {
    o matches Outbound::Brand(b) && b@ == server.branding@
}

/// The offer names the configured pack: the identifier derived from the URL
/// alone, the URL, hash and force flag as configured, and the prompt exactly
/// when one is configured.
pub open spec fn is_resource_pack_offer(o: Outbound, rp: ResourcePackPolicy) -> bool {
    &&& o matches Outbound::AddResourcePack { id, url, sha1, forced, prompt }
    &&& id == dns_name_uuid(rp.url@)
    &&& url@ == rp.url@
    &&& sha1@ == rp.sha1@
    &&& forced == rp.force
    &&& (rp.prompt_message@.len() == 0 ==> prompt is None)
    &&& (rp.prompt_message@.len() > 0 ==> (prompt matches Some(m) && m@ == rp.prompt_message@))
}

/// Whether an event is valid in the current phase, so that its handler runs;
/// anything else is discarded.
pub open spec fn event_valid(pre: Connection, event: InboundEvent) -> bool {
    match event {
        InboundEvent::Handshake(_) => pre.state == ConnectionState::Handshake,
        InboundEvent::StatusRequest => pre.state == ConnectionState::Status,
        InboundEvent::PingRequest(_) => pre.state == ConnectionState::Status,
        InboundEvent::LoginStart(_) => pre.state == ConnectionState::Login && pre.profile is None
            && pre.verify_token is None && !pre.proxy_pending && !pre.auth_pending,
        InboundEvent::EncryptionResponse(_) => pre.state == ConnectionState::Login
            && pre.verify_token is Some && pre.profile is Some && pre.encryption is None
            && pre.compression is None && !pre.proxy_pending && !pre.auth_pending,
        InboundEvent::PluginResponse(_) => pre.state == ConnectionState::Login
            && pre.proxy_pending,
        InboundEvent::ProxyIdentity(_) => pre.state == ConnectionState::Login && pre.proxy_pending
            && pre.compression is None,
        InboundEvent::AuthenticationResult(_) => pre.state == ConnectionState::Login
            && pre.auth_pending && pre.compression is None,
        InboundEvent::LoginAcknowledged => pre.state == ConnectionState::Login,
        InboundEvent::ClientInformation(_) => pre.state == ConnectionState::Config,
        InboundEvent::PluginMessage(_) => pre.state == ConnectionState::Config,
        InboundEvent::KnownPacks => pre.state == ConnectionState::Config,
        InboundEvent::AcknowledgeFinishConfig => pre.state == ConnectionState::Config,
    }
}

/// What the driver owes for each event that is valid in the current phase:
/// the whole machine, case by case.
pub open spec fn event_outcome(
    pre: Connection,
    post: Connection,
    out: Seq<Outbound>,
    server: ServerData,
    event: InboundEvent,
) -> bool {
    match event {
        InboundEvent::Handshake(h) => event_valid(pre, event) ==> {
            &&& post.protocol_version == h.protocol_version
            &&& post.server_address == h.server_address
            &&& (h.next_state == NextState::Status ==> post.state == ConnectionState::Status
                && out.len() == 0)
            &&& (h.next_state == NextState::Login && h.protocol_version < CURRENT_PROTOCOL
                ==> post.state == ConnectionState::Closed && out.len() == 1 && out[0]
                == Outbound::Kick(
                DisconnectReason::OutdatedClient { client_version: h.protocol_version },
            ))
            &&& (h.next_state == NextState::Login && h.protocol_version > CURRENT_PROTOCOL
                ==> post.state == ConnectionState::Closed && out.len() == 1 && out[0]
                == Outbound::Kick(DisconnectReason::OutdatedServer))
            &&& (h.next_state == NextState::Login && h.protocol_version == CURRENT_PROTOCOL
                ==> post.state == ConnectionState::Login && out.len() == 0)
        },
        InboundEvent::StatusRequest => event_valid(pre, event) ==> post == pre && out.len() == 1
            && (out[0] matches Outbound::StatusResponse(s) && s@ == server.status@),
        InboundEvent::PingRequest(p) => event_valid(pre, event) ==> post.state
            == ConnectionState::Closed && same_but_state(pre, post) && out.len() == 1 && (out[0]
            matches Outbound::PingResponse(q) && q@ == p.payload@),
        InboundEvent::LoginStart(ls) => event_valid(pre, event) ==> {
            &&& (!valid_player_name(ls.name@) ==> post.state == ConnectionState::Closed
                && same_but_state(pre, post) && out.len() == 1 && out[0] == Outbound::Kick(
                DisconnectReason::InvalidUsername,
            ))
            &&& (valid_player_name(ls.name@) && server.settings.proxy == ProxyMode::Velocity
                ==> post.state == ConnectionState::Login && post.proxy_pending && out.len() == 1
                && out[0] == Outbound::BeginProxyLogin(ProxyVariant::Velocity))
            &&& (valid_player_name(ls.name@) && server.settings.proxy == ProxyMode::Bungeecord
                ==> post.state == ConnectionState::Login && post.proxy_pending && out.len() == 1
                && out[0] == Outbound::BeginProxyLogin(ProxyVariant::Bungeecord))
            &&& (valid_player_name(ls.name@) && server.settings.proxy == ProxyMode::Direct ==> {
                &&& post.state == ConnectionState::Login
                &&& (post.profile matches Some(p) && p.id == ls.uuid && p.name@ == ls.name@
                    && p.properties@.len() == 0 && p.profile_actions is None)
                &&& post.verify_token is Some
                &&& out.len() == 1
                &&& (out[0] matches Outbound::EncryptionRequest {
                    public_key,
                    verify_token,
                    should_authenticate,
                } && public_key@ == server.public_key@ && Some(verify_token) == post.verify_token
                    && should_authenticate == server.settings.online_mode)
            })
        },
        InboundEvent::EncryptionResponse(r) => event_valid(pre, event) ==> {
            &&& (r matches Err(e) ==> post.state == ConnectionState::Closed && same_but_state(
                pre,
                post,
            ) && out.len() == 1 && out[0] == Outbound::Kick(
                DisconnectReason::EncryptionFailure { detail: e },
            ))
            &&& (r matches Ok(d) ==> (if token_mismatch(pre, d) {
                encryption_mismatch_post(pre, post, out)
            } else {
                encryption_success_post(pre, post, out, server, d)
            }))
        },
        InboundEvent::PluginResponse(pr) => event_valid(pre, event) ==> post == pre && out.len()
            == 1 && out[0] == Outbound::ForwardToProxy(pr),
        InboundEvent::ProxyIdentity(r) => event_valid(pre, event) ==> {
            &&& (r matches Err(e) ==> post.state == ConnectionState::Closed && same_but_state(
                pre,
                post,
            ) && out.len() == 1 && out[0] == Outbound::Kick(
                DisconnectReason::ProxyHandshakeFailure { detail: e },
            ))
            &&& (r matches Ok(p) ==> post.state == ConnectionState::Login && post.profile == Some(
                p,
            ) && !post.proxy_pending && login_success_outputs(
                out,
                p,
                server.settings.compression.enabled,
                server.settings.compression.threshold,
            ))
        },
        InboundEvent::AuthenticationResult(r) => event_valid(pre, event) ==> {
            &&& (r matches Err(f) ==> post.state == ConnectionState::Closed && same_but_state(
                pre,
                post,
            ) && out.len() == 1 && out[0] == Outbound::Kick(
                DisconnectReason::AuthenticationFailure { failure: f },
            ))
            &&& (r matches Ok(p) ==> auth_ok_post(pre, post, out, server, p))
        },
        InboundEvent::LoginAcknowledged => event_valid(pre, event) ==> post.state
            == ConnectionState::Config && same_but_state(pre, post) && config_opening_outputs(
            out,
            server,
        ),
        InboundEvent::ClientInformation(info) => event_valid(pre, event) ==> {
            &&& (spec_hand_from_i32(info.main_hand as int) is Some && spec_chat_mode_from_i32(
                info.chat_mode as int,
            ) is Some ==> post.state == ConnectionState::Config && out.len() == 0 && (post.config
                matches Some(c) && player_config_matches(c, info)))
            &&& (spec_hand_from_i32(info.main_hand as int) is None || spec_chat_mode_from_i32(
                info.chat_mode as int,
            ) is None ==> post.state == ConnectionState::Closed && same_but_state(pre, post)
                && out.len() == 1 && (out[0] matches Outbound::Kick(r) && r matches
                DisconnectReason::MalformedClientPayload { detail } && detail@
                == "Invalid hand or chat type"@))
        },
        InboundEvent::PluginMessage(msg) => event_valid(pre, event) ==> {
            &&& (!is_brand_channel(msg.channel@) ==> post == pre && out.len() == 0)
            &&& (is_brand_channel(msg.channel@) && valid_utf8(msg.data@) ==> post.state
                == ConnectionState::Config && out.len() == 0 && (post.brand matches Some(b) && b@
                == decode_utf8(msg.data@)))
            &&& (is_brand_channel(msg.channel@) && !valid_utf8(msg.data@) ==> post.state
                == ConnectionState::Closed && same_but_state(pre, post) && out.len() == 1 && (out[0]
                matches Outbound::Kick(r) && r matches DisconnectReason::MalformedClientPayload {
                detail,
            } && detail@ == "Brand payload is not valid text"@))
        },
        InboundEvent::KnownPacks => event_valid(pre, event) ==> post == pre && out.len()
            == server.registries@.len() + 1 && (forall|i: int|
            0 <= i < server.registries@.len() ==> is_registry_data_for(
                #[trigger] out[i],
                server.registries@[i],
            )) && out[server.registries@.len() as int] == Outbound::FinishConfig,
        InboundEvent::AcknowledgeFinishConfig => event_valid(pre, event) ==> post.state
            == ConnectionState::Play && post.make_player && out.len() == 0,
    }
}

/// The resource-pack identifier is a pure function of the configured URL:
/// equal URLs always derive equal identifiers.
pub proof fn lemma_resource_pack_id_deterministic(u1: Seq<char>, u2: Seq<char>)
    requires
        u1 == u2,
    ensures
        dns_name_uuid(u1) == dns_name_uuid(u2),
{
}

/// The announcement lists the single supported core data pack.
pub open spec fn is_known_packs_announcement(o: Outbound) -> bool {
    &&& o matches Outbound::KnownPacks(list)
    &&& list@.len() == 1
    &&& list@[0].namespace@ == "minecraft"@
    &&& list@[0].id@ == "core"@
    &&& list@[0].version@ == "1.21"@
}

/// The actions opening the configuration phase: branding, the offer when a
/// resource pack is configured, then the supported data-pack list.
pub open spec fn config_opening_outputs(out: Seq<Outbound>, server: ServerData) -> bool {
    if server.settings.resource_pack.enabled {
        &&& out.len() == 3
        &&& is_branding_for(out[0], server)
        &&& is_resource_pack_offer(out[1], server.settings.resource_pack)
        &&& is_known_packs_announcement(out[2])
    } else {
        &&& out.len() == 2
        &&& is_branding_for(out[0], server)
        &&& is_known_packs_announcement(out[1])
    }
}

/// Count of compression announcements in an action sequence.
pub open spec fn count_set_compression(out: Seq<Outbound>) -> nat
    decreases out.len(),
{
    if out.len() == 0 {
        0
    } else {
        count_set_compression(out.drop_last()) + (if out.last() is SetCompression {
            1nat
        } else {
            0nat
        })
    }
}

/// When a login finishes with compression enabled, the threshold announcement
/// appears exactly once and strictly before the login confirmation; when
/// disabled, the confirmation is sent alone and no threshold is announced.
pub proof fn lemma_compression_ordering(
    out: Seq<Outbound>,
    p: GameProfile,
    enabled: bool,
    threshold: u32,
)
    requires
        login_success_outputs(out, p, enabled, threshold),
    ensures
        enabled ==> count_set_compression(out) == 1 && out[0] is SetCompression && out[1]
            is LoginSuccess,
        !enabled ==> count_set_compression(out) == 0 && out[0] is LoginSuccess,
{
    if enabled {
        assert(out.drop_last() =~= seq![out[0]]);
        assert(out.drop_last().drop_last() =~= Seq::<Outbound>::empty());
        assert(count_set_compression(Seq::<Outbound>::empty()) == 0);
        assert(count_set_compression(out.drop_last()) == 1);
        assert(count_set_compression(out) == 1);
    } else {
        assert(out.drop_last() =~= Seq::<Outbound>::empty());
        assert(count_set_compression(Seq::<Outbound>::empty()) == 0);
        assert(count_set_compression(out) == 0);
    }
}

/// A policy kick stands alone: it carries no login confirmation, so a banned
/// profile under a disallowing policy is never confirmed.
pub proof fn lemma_policy_kick_has_no_login_success(out: Seq<Outbound>)
    requires
        out.len() == 1,
        out[0] == Outbound::Kick(DisconnectReason::PolicyDenied),
    ensures
        has_kick(out),
        !has_login_success(out),
{
}

} // verus!
