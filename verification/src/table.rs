//! The table context that objects and expressions are built against.
//!
//! A [`Table`] identifies a protocol family and a name.  It is owned by the
//! caller and only borrowed by the objects built against it; family and name
//! never change after creation.  Whether a table of that family and name is
//! actually present in the kernel ruleset is the kernel's concern, not
//! checked here.

use vstd::prelude::*;
use crate::wire::str_encodable;

verus! {

/// The protocol family a table belongs to.
#[derive(Clone, Copy, Debug, PartialEq, Eq, Structural)]
pub enum ProtoFamily {
    Unspec,
    Inet,
    Ipv4,
    Arp,
    NetDev,
    Ipv6,
    DecNet,
    Bridge,
}

/// The kernel's numeric code for a protocol family.
pub open spec fn family_raw(f: ProtoFamily) -> u8 {
    match f {
        ProtoFamily::Unspec => 0,
        ProtoFamily::Inet => 1,
        ProtoFamily::Ipv4 => 2,
        ProtoFamily::Arp => 3,
        ProtoFamily::NetDev => 5,
        ProtoFamily::Ipv6 => 10,
        ProtoFamily::DecNet => 12,
        ProtoFamily::Bridge => 7,
    }
}

impl ProtoFamily {
    /// The numeric family code carried in message headers.
    pub fn raw(&self) -> (r: u8)
        ensures
            r == family_raw(*self),
    {
        match self {
            ProtoFamily::Unspec => 0,
            ProtoFamily::Inet => 1,
            ProtoFamily::Ipv4 => 2,
            ProtoFamily::Arp => 3,
            ProtoFamily::NetDev => 5,
            ProtoFamily::Ipv6 => 10,
            ProtoFamily::DecNet => 12,
            ProtoFamily::Bridge => 7,
        }
    }
}

/// A firewall table: a protocol family and a name, immutable once created.
pub struct Table {
    /// The protocol family the table belongs to.
    pub family: ProtoFamily,
    /// The table's name, without a terminating NUL.
    pub name: Vec<u8>,
}

impl Table {
    /// The table's name can be carried as a NUL-terminated attribute.
    pub open spec fn wf(self) -> bool {
        str_encodable(self.name@)
    }

    /// Creates a table context with the given family and name.
    pub fn new(family: ProtoFamily, name: Vec<u8>) -> (r: Table)
        requires
            str_encodable(name@),
        ensures
            r.wf(),
            r.family == family,
            r.name@ == name@,
    {
        Table { family, name }
    }

    /// The protocol family the table belongs to.
    pub fn get_family(&self) -> (r: ProtoFamily)
        ensures
            r == self.family,
    {
        self.family
    }

    /// The table's name.
    pub fn get_name(&self) -> (r: &Vec<u8>)
        ensures
            r@ == self.name@,
    {
        &self.name
    }
}

} // verus!
