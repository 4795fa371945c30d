//! The object-reference expression pointing at a stateful quota.
//!
//! A [`QuotaRef`] holds a copy of a quota's name — a back-reference by
//! value, never a live link to the quota object.  The kernel resolves the
//! name against existing quota objects when the rule is activated, so no
//! lifetime couples a rule's expressions to the objects they name.

use vstd::prelude::*;
use crate::attr::{AttrStore, AttrVal, clone_bytes};
use crate::expr::{ExprHandle, ExprKind};
use crate::quota::{NFT_OBJECT_QUOTA, Quota, quota_name_of};

verus! {

/// Handle-field key of the referenced object's type tag.
pub const OBJREF_ATTR_IMM_TYPE: u16 = 1;

/// Handle-field key of the referenced object's name.
pub const OBJREF_ATTR_IMM_NAME: u16 = 2;

/// A reference-to-quota expression: adds a quota to the rule, counting the
/// bytes of every packet the rule matches.
pub struct QuotaRef {
    quota_name: Vec<u8>,
}

/// The attribute set rendering a [`QuotaRef`] produces: always exactly the
/// referenced name and the quota object-type tag.
pub open spec fn objref_attrs(name: Seq<u8>) -> Map<u16, AttrVal> {
    Map::<u16, AttrVal>::empty()
        .insert(OBJREF_ATTR_IMM_NAME, AttrVal::Str(name))
        .insert(OBJREF_ATTR_IMM_TYPE, AttrVal::U32(NFT_OBJECT_QUOTA))
}

impl QuotaRef {
    /// The copied name of the referenced quota.
    pub closed spec fn name(self) -> Seq<u8> {
        self.quota_name@
    }

    /// Builds a reference to `quota`, copying its name.
    pub fn new(quota: &Quota) -> (r: QuotaRef)
        requires
            quota.wf(),
        ensures
            r.name() == quota_name_of(quota.attrs()),
    {
        QuotaRef { quota_name: clone_bytes(quota.get_name()) }
    }

    /// Renders the reference into a fresh native expression handle holding
    /// exactly the name and type-tag attributes.
    pub fn to_expr(&self) -> (r: ExprHandle)
        ensures
            r.kind == ExprKind::Objref,
            r.attrs.wf(),
            r.attrs@ == objref_attrs(self.name()),
    {
        let mut attrs = AttrStore::new();
        attrs.set_str(OBJREF_ATTR_IMM_NAME, clone_bytes(&self.quota_name));
        attrs.set_u32(OBJREF_ATTR_IMM_TYPE, NFT_OBJECT_QUOTA);
        ExprHandle { kind: ExprKind::Objref, attrs }
    }
}

/// Law: a rendered quota reference names exactly the quota it was built
/// from — the name attribute equals the quota's recorded name, the type
/// tag is the quota object type, and nothing else is encoded.
pub proof fn lemma_quota_ref_round_trip(name: Seq<u8>)
    ensures
        objref_attrs(name)[OBJREF_ATTR_IMM_NAME] == AttrVal::Str(name),
        objref_attrs(name)[OBJREF_ATTR_IMM_TYPE] == AttrVal::U32(NFT_OBJECT_QUOTA),
        forall|k: u16|
            k != OBJREF_ATTR_IMM_NAME && k != OBJREF_ATTR_IMM_TYPE ==> !(#[trigger] objref_attrs(
                name,
            ).contains_key(k)),
{
}

} // verus!
