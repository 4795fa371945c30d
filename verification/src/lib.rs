//! In-memory construction of nftables netlink configuration messages.
//!
//! The crate builds typed models of nftables objects — today the stateful
//! [`quota::Quota`] object and the rule expressions [`expr::log::Log`] and
//! [`expr::quota_ref::QuotaRef`] — and serialises them into binary netlink
//! messages that a transport layer can hand to the kernel.
//!
//! The heart of the model is [`attr::AttrStore`], an owned store of typed
//! attributes that stands for the attribute set of one native object or
//! expression handle.  Expressions render into such a store; a quota object
//! carries one and frames it, behind a netlink header, into the byte buffer
//! supplied by the caller.  The wire layer ([`wire`]) pins the exact bytes:
//! little-endian type-length-value framing with four-byte alignment, and
//! big-endian (network order) integer payloads, as the nftables kernel
//! interface mandates on the targeted hosts.

use vstd::prelude::*;

pub mod attr;
pub mod expr;
pub mod quota;
pub mod table;
pub mod wire;

verus! {

/// The operation a serialised netlink message asks the kernel to perform.
#[derive(Clone, Copy, PartialEq, Eq, Structural)]
pub enum MsgType {
    /// Create the object: "new object" message, acknowledge and create if absent.
    Add,
    /// Remove the object: "delete object" message, acknowledge only.
    Del,
}

} // verus!
