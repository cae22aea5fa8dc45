//! The semantic fields of the decoded packets the handshake logic reads, the
//! adapter results it consumes, and the actions it owes in response. Byte
//! layout belongs to an external codec; only plain values appear here.

use vstd::prelude::*;
use crate::disconnect::{AuthFailure, DisconnectReason};
use crate::profile::{GameProfile, Property};
use crate::server::RegistryEntry;

verus! {

/// The protocol version this server speaks.
pub const CURRENT_PROTOCOL: i32 = 763;

/// The game version this server speaks, named in disconnect messages.
pub fn current_version_name() -> (s: &'static str)
    ensures
        s@ == "1.20.1"@,
{
    "1.20.1"
}

/// The phase the client asks to enter from the handshake.
#[derive(Clone, Copy, PartialEq, Eq, Structural, Debug)]
pub enum NextState {
    Status,
    Login,
}

/// The two proxy-forwarding variants an adapter can be asked to run.
#[derive(Clone, Copy, PartialEq, Eq, Structural, Debug)]
pub enum ProxyVariant {
    Velocity,
    Bungeecord,
}

/// The first inbound packet: declared version, address dialled, next phase.
#[derive(Debug)]
pub struct Handshake {
    pub protocol_version: i32,
    pub server_address: String,
    pub next_state: NextState,
}

/// A ping whose opaque payload is echoed verbatim.
#[derive(Debug)]
pub struct PingRequest {
    pub payload: Vec<u8>,
}

/// The client-declared identity opening the login phase.
#[derive(Debug)]
pub struct LoginStart {
    pub name: String,
    pub uuid: u128,
}

/// The client's encryption reply after the transport decrypted it with the
/// server's private key.
#[derive(Debug)]
pub struct DecryptedSecrets {
    pub shared_secret: Vec<u8>,
    pub verify_token: Vec<u8>,
}

/// A login plugin reply, routed to the proxy adapter.
#[derive(Debug)]
pub struct LoginPluginResponse {
    pub message_id: i32,
    pub successful: bool,
    pub data: Vec<u8>,
}

/// The client's declared display and locale settings.
#[derive(Debug)]
pub struct ClientInformation {
    pub locale: String,
    pub view_distance: u8,
    pub chat_mode: i32,
    pub chat_colors: bool,
    pub skin_parts: u8,
    pub main_hand: i32,
    pub text_filtering: bool,
    pub server_listing: bool,
}

/// A plugin message on a named channel.
#[derive(Debug)]
pub struct PluginMessage {
    pub channel: String,
    pub data: Vec<u8>,
}

/// One supported data-pack descriptor.
#[derive(Debug)]
pub struct KnownPackEntry {
    pub namespace: String,
    pub id: String,
    pub version: String,
}

/// One inbound event: a decoded packet, or the completion of outside work
/// (decryption, a proxy handshake, an identity-service query) handed back as
/// a plain value.
#[derive(Debug)]
pub enum InboundEvent {
    Handshake(Handshake),
    StatusRequest,
    PingRequest(PingRequest),
    LoginStart(LoginStart),
    EncryptionResponse(Result<DecryptedSecrets, String>),
    PluginResponse(LoginPluginResponse),
    ProxyIdentity(Result<GameProfile, String>),
    AuthenticationResult(Result<GameProfile, AuthFailure>),
    LoginAcknowledged,
    ClientInformation(ClientInformation),
    PluginMessage(PluginMessage),
    KnownPacks,
    AcknowledgeFinishConfig,
}

/// One action owed in response: a message to send, a one-shot mode switch on
/// the transport, outside work to start, or the terminal disconnect.
#[derive(Debug)]
pub enum Outbound {
    StatusResponse(String),
    PingResponse(Vec<u8>),
    EncryptionRequest { public_key: Vec<u8>, verify_token: [u8; 4], should_authenticate: bool },
    EnableEncryption,
    BeginProxyLogin(ProxyVariant),
    ForwardToProxy(LoginPluginResponse),
    BeginAuthentication { username: String },
    SetCompression { threshold: u32 },
    LoginSuccess { id: u128, name: String, properties: Vec<Property>, strict_error_handling: bool },
    Brand(String),
    AddResourcePack { id: u128, url: String, sha1: String, forced: bool, prompt: Option<String> },
    KnownPacks(Vec<KnownPackEntry>),
    RegistryData { registry_id: String, entries: Vec<RegistryEntry> },
    FinishConfig,
    Kick(DisconnectReason),
}

} // verus!
