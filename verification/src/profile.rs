//! Resolved player identities: the profile a session finalizes exactly once,
//! either from direct client input or from a proxy or authenticator result.

use vstd::prelude::*;

verus! {

/// One signed display property of a resolved identity (skin data and the like).
#[derive(Debug)]
pub struct Property {
    pub name: String,
    pub value: String,
    pub signature: Option<String>,
}

/// Value-wise equality of two properties.
pub open spec fn prop_equiv(a: Property, b: Property) -> bool {
    &&& a.name@ == b.name@
    &&& a.value@ == b.value@
    &&& match (a.signature, b.signature) {
        (Some(x), Some(y)) => x@ == y@,
        (None, None) => true,
        _ => false,
    }
}

/// Value-wise equality of two property lists, in order.
pub open spec fn props_equiv(a: Seq<Property>, b: Seq<Property>) -> bool {
    a.len() == b.len() && forall|i: int| 0 <= i < a.len() ==> #[trigger] prop_equiv(a[i], b[i])
}

/// The resolved player identity: id, display name, signed display properties,
/// and the restriction tags an identity service may attach to the account.
#[derive(Debug)]
pub struct GameProfile {
    pub id: u128,
    pub name: String,
    pub properties: Vec<Property>,
    pub profile_actions: Option<Vec<String>>,
}

/// A value-wise copy of one property.
pub fn copy_property(p: &Property) -> (r: Property)
    ensures
        prop_equiv(r, *p),
{
    Property {
        name: p.name.clone(),
        value: p.value.clone(),
        signature: match &p.signature {
            Some(s) => Some(s.clone()),
            None => None,
        },
    }
}

/// A value-wise copy of a property list.
pub fn copy_properties(ps: &Vec<Property>) -> (r: Vec<Property>)
    ensures
        props_equiv(r@, ps@),
{
    let mut r: Vec<Property> = Vec::new();
    let mut i: usize = 0;
    while i < ps.len()
        invariant
            i <= ps.len(),
            r@.len() == i,
            forall|j: int| 0 <= j < i ==> #[trigger] prop_equiv(r@[j], ps@[j]),
        decreases ps.len() - i,
    {
        r.push(copy_property(&ps[i]));
        i += 1;
    }
    r
}

} // verus!
