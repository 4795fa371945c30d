//! Rule expressions and their rendering into native expression handles.
//!
//! An expression is one match or action unit attached to a firewall rule.
//! Rendering an expression allocates a fresh handle — modelled by
//! [`ExprHandle`] — and fills its attribute store; ownership of the handle
//! passes to the caller, which typically consumes it into a rule's
//! expression list.  Rendering never fails: it is a direct transformation
//! of in-memory state.

pub mod log;
pub mod quota_ref;

use vstd::prelude::*;
use crate::attr::AttrStore;

verus! {

/// Which native expression kind a handle was allocated as.
#[derive(Clone, Copy, Debug, PartialEq, Eq, Structural)]
pub enum ExprKind {
    /// A packet-logging expression.
    Log,
    /// An object-reference expression.
    Objref,
}

/// A freshly allocated native expression handle: its kind and the typed
/// attributes set on it.  The handle is exclusively owned by its holder.
pub struct ExprHandle {
    /// The expression kind the handle was allocated as.
    pub kind: ExprKind,
    /// The attributes set on the handle.
    pub attrs: AttrStore,
}

/// Any expression variant, with one rendering operation for all of them.
pub enum Expression {
    /// A packet-logging expression configuration.
    Log(log::Log),
    /// A reference to a stateful quota object.
    QuotaRef(quota_ref::QuotaRef),
}

impl Expression {
    /// Renders the expression into a fresh native handle.
    pub fn to_expr(&self) -> (r: ExprHandle)
        ensures
            r.attrs.wf(),
            match self {
                Expression::Log(lg) => r.kind == ExprKind::Log && r.attrs@ == log::log_attrs(*lg),
                Expression::QuotaRef(qr) => r.kind == ExprKind::Objref && r.attrs@
                    == quota_ref::objref_attrs(qr.name()),
            },
    {
        match self {
            Expression::Log(lg) => lg.to_expr(),
            Expression::QuotaRef(qr) => qr.to_expr(),
        }
    }
}

} // verus!
