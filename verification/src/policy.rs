//! Ban-action and texture policy applied to an authenticated profile. The
//! first violation decides the verdict; nothing is evaluated past it.

use vstd::prelude::*;
use crate::disconnect::{AuthFailure, DisconnectReason};
use crate::profile::{GameProfile, Property};
use crate::server::{AuthPolicy, TexturePolicy};
use crate::text::str_eq;

verus! {

/// Whether some string in `hay` spells `needle`.
pub open spec fn seq_contains_string(hay: Seq<String>, needle: Seq<char>) -> bool {
    exists|i: int| 0 <= i < hay.len() && #[trigger] hay[i]@ == needle
}

/// A profile barred outright: it carries restriction tags and the policy
/// disallows banned accounts.
pub open spec fn banned(p: GameProfile, policy: AuthPolicy) -> bool {
    &&& !policy.allow_banned_players
    &&& p.profile_actions matches Some(a) && a@.len() > 0
}

/// Under the permissive policy, some tag of the profile is missing from the
/// configured allow-list.
pub open spec fn has_disallowed_action(p: GameProfile, policy: AuthPolicy) -> bool {
    &&& policy.allow_banned_players
    &&& p.profile_actions matches Some(a) && exists|i: int|
        0 <= i < a@.len() && !seq_contains_string(policy.allowed_actions@, #[trigger] a@[i]@)
}

/// One property meets the trusted-texture policy.
pub open spec fn texture_ok(prop: Property, policy: TexturePolicy) -> bool {
    !policy.require_signature || prop.signature is Some
}

/// Every property of the profile meets the trusted-texture policy.
pub open spec fn textures_ok(p: GameProfile, policy: TexturePolicy) -> bool {
    forall|i: int| 0 <= i < p.properties@.len() ==> texture_ok(#[trigger] p.properties@[i], policy)
}

/// The profile passes every policy check and may join.
pub open spec fn profile_admitted(p: GameProfile, policy: AuthPolicy) -> bool {
    &&& !banned(p, policy)
    &&& !has_disallowed_action(p, policy)
    &&& textures_ok(p, policy.textures)
}

/// Whether some string of the list spells `needle`.
pub fn vec_contains_string(hay: &Vec<String>, needle: &str) -> (r: bool)
    ensures
        r == seq_contains_string(hay@, needle@),
{
    let mut i: usize = 0;
    while i < hay.len()
        invariant
            i <= hay.len(),
            forall|j: int| 0 <= j < i ==> #[trigger] hay@[j]@ != needle@,
        decreases hay.len() - i,
    {
        if str_eq(hay[i].as_str(), needle) {
            return true;
        }
        i += 1;
    }
    false
}

/// Signature check of one property against the trusted-texture policy.
pub fn validate_textures(property: &Property, policy: &TexturePolicy) -> (r: bool)
    ensures
        r == texture_ok(*property, *policy),
{
    !policy.require_signature || property.signature.is_some()
}

/// Evaluates the whole policy on a verified profile. Returns the disconnect
/// owed for the first violation, or nothing when the profile may join.
#[verifier::loop_isolation(false)]
pub fn evaluate_profile(p: &GameProfile, policy: &AuthPolicy) -> (r: Option<DisconnectReason>)
    ensures
        banned(*p, *policy) ==> r == Some(DisconnectReason::PolicyDenied),
        !banned(*p, *policy) && has_disallowed_action(*p, *policy) ==> r == Some(
            DisconnectReason::PolicyDenied,
        ),
        !banned(*p, *policy) && !has_disallowed_action(*p, *policy) && !textures_ok(
            *p,
            policy.textures,
        ) ==> (r matches Some(reason) && reason matches DisconnectReason::AuthenticationFailure {
            failure,
        } && failure matches AuthFailure::TextureInvalid(d) && exists|i: int|
            {
                &&& 0 <= i < p.properties@.len()
                &&& !texture_ok(#[trigger] p.properties@[i], policy.textures)
                &&& d@ == p.properties@[i].name@
                &&& forall|j: int| 0 <= j < i ==> texture_ok(#[trigger] p.properties@[j], policy.textures)
            }),
        profile_admitted(*p, *policy) ==> r is None,
{
    match &p.profile_actions {
        Some(actions) => {
            if !policy.allow_banned_players {
                if actions.len() > 0 {
                    return Some(DisconnectReason::PolicyDenied);
                }
            } else {
                let mut i: usize = 0;
                while i < actions.len()
                    invariant
                        i <= actions.len(),
                        forall|j: int|
                            0 <= j < i ==> seq_contains_string(
                                policy.allowed_actions@,
                                #[trigger] actions@[j]@,
                            ),
                    decreases actions.len() - i,
                {
                    if !vec_contains_string(&policy.allowed_actions, actions[i].as_str()) {
                        proof {
                            assert(p.profile_actions matches Some(acts) && !seq_contains_string(
                                policy.allowed_actions@,
                                acts@[i as int]@,
                            ));
                        }
                        return Some(DisconnectReason::PolicyDenied);
                    }
                    i += 1;
                }
            }
        },
        None => {},
    }
    let mut i: usize = 0;
    while i < p.properties.len()
        invariant
            i <= p.properties.len(),
            forall|j: int| 0 <= j < i ==> texture_ok(#[trigger] p.properties@[j], policy.textures),
        decreases p.properties.len() - i,
    {
        if !validate_textures(&p.properties[i], &policy.textures) {
            proof {
                assert(!texture_ok(p.properties@[i as int], policy.textures));
            }
            return Some(
                DisconnectReason::AuthenticationFailure {
                    failure: AuthFailure::TextureInvalid(p.properties[i].name.clone()),
                },
            );
        }
        i += 1;
    }
    None
}

} // verus!
