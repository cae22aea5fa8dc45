//! The shared, read-mostly server collaborator: the immutable configuration
//! snapshot, branding and status payloads, and the cached registry datasets
//! streamed during the configuration phase.

use vstd::prelude::*;

verus! {

/// How identities are resolved: directly from the client, or through one of
/// two mutually exclusive proxy-forwarding variants.
#[derive(Clone, Copy, PartialEq, Eq, Structural, Debug)]
pub enum ProxyMode {
    Direct,
    Velocity,
    Bungeecord,
}

/// Whether compressed framing is switched on after login, and from what
/// frame size on.
#[derive(Clone, Copy, PartialEq, Eq, Structural, Debug)]
pub struct CompressionPolicy {
    pub enabled: bool,
    pub threshold: u32,
}

/// The resource pack offered during the configuration phase, if any.
#[derive(Debug)]
pub struct ResourcePackPolicy {
    pub enabled: bool,
    pub url: String,
    pub sha1: String,
    pub force: bool,
    pub prompt_message: String,
}

/// The trusted-texture policy enforced on a verified profile's properties.
#[derive(Clone, Copy, PartialEq, Eq, Structural, Debug)]
pub struct TexturePolicy {
    pub require_signature: bool,
}

/// Ban-action and texture policy applied to an authenticated profile.
#[derive(Debug)]
pub struct AuthPolicy {
    pub service_available: bool,
    pub allow_banned_players: bool,
    pub allowed_actions: Vec<String>,
    pub textures: TexturePolicy,
}

/// The static configuration snapshot a connection reads.
#[derive(Debug)]
pub struct Settings {
    pub online_mode: bool,
    pub proxy: ProxyMode,
    pub compression: CompressionPolicy,
    pub resource_pack: ResourcePackPolicy,
    pub auth: AuthPolicy,
}

/// One entry of a cached registry dataset.
#[derive(Debug)]
pub struct RegistryEntry {
    pub entry_id: String,
    pub data: Option<Vec<u8>>,
}

/// One cached registry dataset, streamed as a single message.
#[derive(Debug)]
pub struct Registry {
    pub registry_id: String,
    pub entries: Vec<RegistryEntry>,
}

/// Value-wise equality of two registry entries.
pub open spec fn entry_equiv(a: RegistryEntry, b: RegistryEntry) -> bool {
    &&& a.entry_id@ == b.entry_id@
    &&& match (a.data, b.data) {
        (Some(x), Some(y)) => x@ == y@,
        (None, None) => true,
        _ => false,
    }
}

/// Value-wise equality of two entry lists, in order.
pub open spec fn entries_equiv(a: Seq<RegistryEntry>, b: Seq<RegistryEntry>) -> bool {
    a.len() == b.len() && forall|i: int| 0 <= i < a.len() ==> #[trigger] entry_equiv(a[i], b[i])
}

/// The server-level collaborator, immutable after startup.
#[derive(Debug)]
pub struct ServerData {
    pub settings: Settings,
    pub status: String,
    pub branding: String,
    pub public_key: Vec<u8>,
    pub registries: Vec<Registry>,
}

/// A value-wise copy of a byte vector.
pub fn copy_bytes(v: &Vec<u8>) -> (r: Vec<u8>)
    ensures
        r@ == v@,
{
    let mut r: Vec<u8> = Vec::new();
    let mut i: usize = 0;
    while i < v.len()
        invariant
            i <= v.len(),
            r@ == v@.subrange(0, i as int),
        decreases v.len() - i,
    {
        r.push(v[i]);
        i += 1;
    }
    proof {
        assert(r@ =~= v@);
    }
    r
}

/// A value-wise copy of one registry entry.
pub fn copy_entry(e: &RegistryEntry) -> (r: RegistryEntry)
    ensures
        entry_equiv(r, *e),
{
    RegistryEntry {
        entry_id: e.entry_id.clone(),
        data: match &e.data {
            Some(d) => Some(copy_bytes(d)),
            None => None,
        },
    }
}

/// A value-wise copy of an entry list.
pub fn copy_entries(es: &Vec<RegistryEntry>) -> (r: Vec<RegistryEntry>)
    ensures
        entries_equiv(r@, es@),
{
    let mut r: Vec<RegistryEntry> = Vec::new();
    let mut i: usize = 0;
    while i < es.len()
        invariant
            i <= es.len(),
            r@.len() == i,
            forall|j: int| 0 <= j < i ==> #[trigger] entry_equiv(r@[j], es@[j]),
        decreases es.len() - i,
    {
        r.push(copy_entry(&es[i]));
        i += 1;
    }
    r
}

} // verus!
