//! Terminal disconnect reasons and the human-readable text owed to the
//! client for each. Every reason is fatal to the session; none is retried.

use vstd::prelude::*;
use vstd::string::StringExecFns;
use crate::packets::{current_version_name, CURRENT_PROTOCOL};
use crate::text::{contains_seq, dec_digits, dec_i32, dec_int, dec_u32, lemma_concat_contains};

verus! {

/// Why authentication against the identity service failed.
#[derive(Debug)]
pub enum AuthFailure {
    /// The service could not be reached or answered with an error.
    ServiceUnreachable(String),
    /// The service does not know the account.
    AccountNotFound,
    /// A signed property failed the trusted-texture policy; names the property.
    TextureInvalid(String),
    /// Online mode demands a service, but none is configured.
    MissingService,
}

/// The terminal reasons a session can be disconnected for.
#[derive(Debug)]
pub enum DisconnectReason {
    OutdatedClient { client_version: i32 },
    OutdatedServer,
    InvalidUsername,
    ProxyHandshakeFailure { detail: String },
    EncryptionFailure { detail: String },
    AuthenticationFailure { failure: AuthFailure },
    PolicyDenied,
    MalformedClientPayload { detail: String },
}

/// The text of an authentication failure.
pub open spec fn auth_failure_message(f: AuthFailure) -> Seq<char> {
    match f {
        AuthFailure::ServiceUnreachable(d) => d@,
        AuthFailure::AccountNotFound => "Account not found"@,
        AuthFailure::TextureInvalid(d) => "Invalid texture data: "@ + d@,
        AuthFailure::MissingService => "Authentication service is not configured"@,
    }
}

/// The text of a disconnect reason.
pub open spec fn reason_message(r: DisconnectReason) -> Seq<char> {
    match r {
        DisconnectReason::OutdatedClient { client_version } => "Client outdated ("@ + dec_int(
            client_version as int,
        ) + "), Server uses Minecraft "@ + "1.20.1"@ + ", Protocol "@ + dec_digits(
            CURRENT_PROTOCOL as int,
        ),
        DisconnectReason::OutdatedServer => "Server outdated, Server uses Minecraft "@ + "1.20.1"@
            + ", Protocol "@ + dec_digits(CURRENT_PROTOCOL as int),
        DisconnectReason::InvalidUsername => "Invalid characters in username"@,
        DisconnectReason::ProxyHandshakeFailure { detail } => detail@,
        DisconnectReason::EncryptionFailure { detail } => "Failed to set up encryption: "@
            + detail@,
        DisconnectReason::AuthenticationFailure { failure } => auth_failure_message(failure),
        DisconnectReason::PolicyDenied => "Your account can't join"@,
        DisconnectReason::MalformedClientPayload { detail } => detail@,
    }
}

impl AuthFailure {
    /// Renders the text of this failure.
    pub fn message(&self) -> (r: String)
        ensures
            r@ == auth_failure_message(*self),
    {
        match self {
            AuthFailure::ServiceUnreachable(d) => d.clone(),
            AuthFailure::AccountNotFound => String::from_str("Account not found"),
            AuthFailure::TextureInvalid(d) => String::from_str("Invalid texture data: ").concat(
                d.as_str(),
            ),
            AuthFailure::MissingService => String::from_str(
                "Authentication service is not configured",
            ),
        }
    }
}

impl DisconnectReason {
    /// Renders the human-readable disconnect text owed to the client.
    pub fn message(&self) -> (r: String)
        ensures
            r@ == reason_message(*self),
    {
        match self {
            DisconnectReason::OutdatedClient { client_version } => {
                let s = String::from_str("Client outdated (").concat(
                    dec_i32(*client_version).as_str(),
                ).concat("), Server uses Minecraft ").concat(current_version_name()).concat(
                    ", Protocol ",
                ).concat(dec_u32(CURRENT_PROTOCOL as u32).as_str());
                proof {
                    assert(s@ =~= reason_message(*self));
                }
                s
            },
            DisconnectReason::OutdatedServer => {
                let s = String::from_str("Server outdated, Server uses Minecraft ").concat(
                    current_version_name(),
                ).concat(", Protocol ").concat(dec_u32(CURRENT_PROTOCOL as u32).as_str());
                proof {
                    assert(s@ =~= reason_message(*self));
                }
                s
            },
            DisconnectReason::InvalidUsername => String::from_str("Invalid characters in username"),
            DisconnectReason::ProxyHandshakeFailure { detail } => detail.clone(),
            DisconnectReason::EncryptionFailure { detail } => String::from_str(
                "Failed to set up encryption: ",
            ).concat(detail.as_str()),
            DisconnectReason::AuthenticationFailure { failure } => failure.message(),
            DisconnectReason::PolicyDenied => String::from_str("Your account can't join"),
            DisconnectReason::MalformedClientPayload { detail } => detail.clone(),
        }
    }
}

/// An outdated-client disconnect names the client's own protocol version.
pub proof fn lemma_outdated_client_names_client_version(v: i32)
    ensures
        contains_seq(
            reason_message(DisconnectReason::OutdatedClient { client_version: v }),
            dec_int(v as int),
        ),
{
    let a = "Client outdated ("@;
    let b = dec_int(v as int);
    let c = "), Server uses Minecraft "@ + "1.20.1"@ + ", Protocol "@ + dec_digits(
        CURRENT_PROTOCOL as int,
    );
    lemma_concat_contains(a, b, c);
    assert(a + b + c =~= reason_message(DisconnectReason::OutdatedClient { client_version: v }));
}

/// An outdated-client disconnect names the server's own protocol version.
pub proof fn lemma_outdated_client_names_current_protocol(v: i32)
    ensures
        contains_seq(
            reason_message(DisconnectReason::OutdatedClient { client_version: v }),
            dec_digits(CURRENT_PROTOCOL as int),
        ),
{
    let a = "Client outdated ("@ + dec_int(v as int) + "), Server uses Minecraft "@ + "1.20.1"@
        + ", Protocol "@;
    let b = dec_digits(CURRENT_PROTOCOL as int);
    lemma_concat_contains(a, b, Seq::empty());
    assert(a + b + Seq::<char>::empty() =~= reason_message(
        DisconnectReason::OutdatedClient { client_version: v },
    ));
}

/// An outdated-client disconnect names the server's game version.
pub proof fn lemma_outdated_client_names_version_name(v: i32)
    ensures
        contains_seq(
            reason_message(DisconnectReason::OutdatedClient { client_version: v }),
            "1.20.1"@,
        ),
{
    let a = "Client outdated ("@ + dec_int(v as int) + "), Server uses Minecraft "@;
    let b = "1.20.1"@;
    let c = ", Protocol "@ + dec_digits(CURRENT_PROTOCOL as int);
    lemma_concat_contains(a, b, c);
    assert(a + b + c =~= reason_message(DisconnectReason::OutdatedClient { client_version: v }));
}

} // verus!
