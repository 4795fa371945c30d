//! The stateful quota object: creation, mutation, and serialisation into a
//! netlink message.
//!
//! A [`Quota`] is a named, typed byte counter that lives inside a table.
//! Construction allocates the attribute store and immediately records the
//! family, the object type tag, the table name, the object name, and a
//! consumed count of zero.  Setters may overwrite the limit, the consumed
//! count and the comparison type at any time before serialisation;
//! serialisation is repeatable and leaves the object untouched.

use vstd::prelude::*;
use vstd::pervasive::unreached;
use crate::MsgType;
use crate::attr::{AttrStore, AttrVal, AttrValue, clone_bytes, str_of, u32_of, u64_of};
use crate::table::{ProtoFamily, Table, family_raw};
use crate::wire::{
    NLA_F_NESTED, be32, be64, nfgen_header, nla_attr, nlmsg_header, put_attr_bytes, put_attr_strz,
    put_attr_u32, put_attr_u64, put_bytes, put_headers, str_encodable, strz,
};

verus! {

/// Base quota type.
#[derive(Debug, Copy, Clone, Eq, PartialEq, Hash, Structural)]
pub enum QuotaType {
    /// Verdict is passed UNTIL quota is exceeded
    Until,
    /// Verdict is passed WHEN quota is exceeded
    Over,
}

/// Store key of the object's protocol family.
pub const OBJ_ATTR_FAMILY: u16 = 1;

/// Store key of the object's type tag.
pub const OBJ_ATTR_TYPE: u16 = 2;

/// Store key of the name of the owning table.
pub const OBJ_ATTR_TABLE: u16 = 3;

/// Store key of the object's own name.
pub const OBJ_ATTR_NAME: u16 = 4;

/// Store key of the quota's byte limit.
pub const OBJ_ATTR_QUOTA_BYTES: u16 = 5;

/// Store key of the quota's consumed-bytes counter.
pub const OBJ_ATTR_QUOTA_CONSUMED: u16 = 6;

/// Store key of the quota's comparison flags.
pub const OBJ_ATTR_QUOTA_FLAGS: u16 = 7;

/// The kernel's object-type tag for quota objects.
pub const NFT_OBJECT_QUOTA: u32 = 2;

/// The kernel's "inverse" quota flag: match once the quota is exceeded.
pub const NFT_QUOTA_F_INV: u32 = 1;

/// Wire attribute: name of the owning table.
pub const NFTA_OBJ_TABLE: u16 = 1;

/// Wire attribute: the object's name.
pub const NFTA_OBJ_NAME: u16 = 2;

/// Wire attribute: the object's type tag.
pub const NFTA_OBJ_TYPE: u16 = 3;

/// Wire attribute: nest holding the object-type-specific payload.
pub const NFTA_OBJ_DATA: u16 = 4;

/// Wire attribute inside the data nest: the quota's byte limit.
pub const NFTA_QUOTA_BYTES: u16 = 1;

/// Wire attribute inside the data nest: the quota's comparison flags.
pub const NFTA_QUOTA_FLAGS: u16 = 2;

/// Wire attribute inside the data nest: the consumed-bytes counter.
pub const NFTA_QUOTA_CONSUMED: u16 = 4;

/// The kernel's "new object" message type.
pub const NFT_MSG_NEWOBJ: u16 = 18;

/// The kernel's "delete object" message type.
pub const NFT_MSG_DELOBJ: u16 = 20;

/// The nftables subsystem number, the high byte of every message type.
pub const NFNL_SUBSYS_NFTABLES: u16 = 10;

/// Message flag: this message is a request.
pub const NLM_F_REQUEST: u16 = 1;

/// Message flag: acknowledge the request.
pub const NLM_F_ACK: u16 = 4;

/// Message flag: create the object if it is absent.
pub const NLM_F_CREATE: u16 = 0x400;

/// The flag value a quota type encodes to.
pub open spec fn quota_type_flag(quota_type: QuotaType) -> u32 {
    match quota_type {
        QuotaType::Until => 0,
        QuotaType::Over => NFT_QUOTA_F_INV,
    }
}

/// The kernel message type an operation maps to.
pub open spec fn raw_msg_type(msg_type: MsgType) -> u16 {
    match msg_type {
        MsgType::Add => NFT_MSG_NEWOBJ,
        MsgType::Del => NFT_MSG_DELOBJ,
    }
}

/// The message flags an operation maps to, beside the request flag.
pub open spec fn raw_msg_flags(msg_type: MsgType) -> u16 {
    match msg_type {
        MsgType::Add => NLM_F_ACK | NLM_F_CREATE,
        MsgType::Del => NLM_F_ACK,
    }
}

/// The store holds a byte string under `key`.
pub open spec fn has_str_at(m: Map<u16, AttrVal>, key: u16) -> bool {
    m.contains_key(key) && m[key] is Str
}

/// The store holds a 32-bit integer under `key`.
pub open spec fn has_u32_at(m: Map<u16, AttrVal>, key: u16) -> bool {
    m.contains_key(key) && m[key] is U32
}

/// The store holds a 64-bit integer under `key`.
pub open spec fn has_u64_at(m: Map<u16, AttrVal>, key: u16) -> bool {
    m.contains_key(key) && m[key] is U64
}

/// The object name recorded in an attribute store.
pub open spec fn quota_name_of(m: Map<u16, AttrVal>) -> Seq<u8> {
    str_of(m[OBJ_ATTR_NAME])
}

/// The attribute store of a quota as construction leaves it: family, object
/// type, table name, object name, and a consumed count of zero.
pub open spec fn initial_quota_attrs(
    family: ProtoFamily,
    table_name: Seq<u8>,
    name: Seq<u8>,
) -> Map<u16, AttrVal> {
    Map::<u16, AttrVal>::empty()
        .insert(OBJ_ATTR_FAMILY, AttrVal::U32(family_raw(family) as u32))
        .insert(OBJ_ATTR_TYPE, AttrVal::U32(NFT_OBJECT_QUOTA))
        .insert(OBJ_ATTR_TABLE, AttrVal::Str(table_name))
        .insert(OBJ_ATTR_NAME, AttrVal::Str(name))
        .insert(OBJ_ATTR_QUOTA_CONSUMED, AttrVal::U64(0))
}

/// The bytes of the quota-specific data nest: limit, consumed count and
/// flags, each present exactly when it is set on the store.
pub open spec fn quota_data_bytes(m: Map<u16, AttrVal>) -> Seq<u8> {
    (if has_u64_at(m, OBJ_ATTR_QUOTA_BYTES) {
        nla_attr(NFTA_QUOTA_BYTES, be64(u64_of(m[OBJ_ATTR_QUOTA_BYTES])))
    } else {
        Seq::empty()
    }) + (if has_u64_at(m, OBJ_ATTR_QUOTA_CONSUMED) {
        nla_attr(NFTA_QUOTA_CONSUMED, be64(u64_of(m[OBJ_ATTR_QUOTA_CONSUMED])))
    } else {
        Seq::empty()
    }) + (if has_u32_at(m, OBJ_ATTR_QUOTA_FLAGS) {
        nla_attr(NFTA_QUOTA_FLAGS, be32(u32_of(m[OBJ_ATTR_QUOTA_FLAGS])))
    } else {
        Seq::empty()
    })
}

/// Whether the store holds any quota-specific data to nest.
pub open spec fn has_quota_data(m: Map<u16, AttrVal>) -> bool {
    has_u64_at(m, OBJ_ATTR_QUOTA_BYTES) || has_u64_at(m, OBJ_ATTR_QUOTA_CONSUMED) || has_u32_at(
        m,
        OBJ_ATTR_QUOTA_FLAGS,
    )
}

/// The full attribute payload of an object message: table name, object
/// name, type tag, then the data nest, each present exactly when set.
pub open spec fn quota_payload_bytes(m: Map<u16, AttrVal>) -> Seq<u8> {
    (if has_str_at(m, OBJ_ATTR_TABLE) {
        nla_attr(NFTA_OBJ_TABLE, strz(str_of(m[OBJ_ATTR_TABLE])))
    } else {
        Seq::empty()
    }) + (if has_str_at(m, OBJ_ATTR_NAME) {
        nla_attr(NFTA_OBJ_NAME, strz(str_of(m[OBJ_ATTR_NAME])))
    } else {
        Seq::empty()
    }) + (if has_u32_at(m, OBJ_ATTR_TYPE) {
        nla_attr(NFTA_OBJ_TYPE, be32(u32_of(m[OBJ_ATTR_TYPE])))
    } else {
        Seq::empty()
    }) + (if has_quota_data(m) {
        nla_attr(NLA_F_NESTED | NFTA_OBJ_DATA, quota_data_bytes(m))
    } else {
        Seq::empty()
    })
}

/// The complete netlink message serialising an object store: headers, then
/// the attribute payload, with no gap between them.
pub open spec fn quota_msg_bytes(
    m: Map<u16, AttrVal>,
    family: ProtoFamily,
    seq_no: u32,
    msg_type: MsgType,
) -> Seq<u8> {
    nlmsg_header(
        (20 + quota_payload_bytes(m).len()) as u32,
        (NFNL_SUBSYS_NFTABLES << 8) | raw_msg_type(msg_type),
        NLM_F_REQUEST | raw_msg_flags(msg_type),
        seq_no,
    ) + nfgen_header(family_raw(family)) + quota_payload_bytes(m)
}

/// Abstraction of a native object handle for quota.  Quota objects reside
/// inside [`Table`]s.
///
/// There are two types of quotas, "until" and "over".
pub struct Quota<'a> {
    obj: AttrStore,
    table: &'a Table,
}

impl<'a> Quota<'a> {
    /// The attribute store the quota owns.
    pub closed spec fn attrs(self) -> Map<u16, AttrVal> {
        self.obj@
    }

    /// The table context the quota was built against.
    pub closed spec fn table_view(self) -> Table {
        *self.table
    }

    /// The store is well formed and holds encodable table and object names.
    pub closed spec fn wf(self) -> bool {
        &&& self.obj.wf()
        &&& has_str_at(self.obj@, OBJ_ATTR_NAME)
        &&& str_encodable(str_of(self.obj@[OBJ_ATTR_NAME]))
        &&& has_str_at(self.obj@, OBJ_ATTR_TABLE)
        &&& str_encodable(str_of(self.obj@[OBJ_ATTR_TABLE]))
    }

    /// Creates a new quota instance inside the given [`Table`] and with the
    /// given name.
    pub fn new(name: &Vec<u8>, table: &'a Table) -> (r: Quota<'a>)
        requires
            table.wf(),
            str_encodable(name@),
        ensures
            r.wf(),
            r.table_view() == *table,
            r.attrs() == initial_quota_attrs(table.family, table.name@, name@),
    {
        let mut obj = AttrStore::new();
        obj.set_u32(OBJ_ATTR_FAMILY, table.get_family().raw() as u32);
        obj.set_u32(OBJ_ATTR_TYPE, NFT_OBJECT_QUOTA);
        obj.set_str(OBJ_ATTR_TABLE, clone_bytes(table.get_name()));
        obj.set_str(OBJ_ATTR_NAME, clone_bytes(name));
        obj.set_u64(OBJ_ATTR_QUOTA_CONSUMED, 0);
        Quota { obj, table }
    }

    /// Set type of this quota ('over' or 'until').
    pub fn set_type(&mut self, quota_type: QuotaType)
        requires
            old(self).wf(),
        ensures
            final(self).wf(),
            final(self).attrs() == old(self).attrs().insert(
                OBJ_ATTR_QUOTA_FLAGS,
                AttrVal::U32(quota_type_flag(quota_type)),
            ),
            final(self).table_view() == old(self).table_view(),
    {
        let flag: u32 = match quota_type {
            QuotaType::Until => 0,
            QuotaType::Over => NFT_QUOTA_F_INV,
        };
        self.obj.set_u32(OBJ_ATTR_QUOTA_FLAGS, flag);
    }

    /// Set limit of bytes at which this quota trips.
    pub fn set_limit(&mut self, bytes: u64)
        requires
            old(self).wf(),
        ensures
            final(self).wf(),
            final(self).attrs() == old(self).attrs().insert(
                OBJ_ATTR_QUOTA_BYTES,
                AttrVal::U64(bytes),
            ),
            final(self).table_view() == old(self).table_view(),
    {
        self.obj.set_u64(OBJ_ATTR_QUOTA_BYTES, bytes);
    }

    /// Set starting value of already consumed bytes (default: 0).
    pub fn set_consumed(&mut self, bytes: u64)
        requires
            old(self).wf(),
        ensures
            final(self).wf(),
            final(self).attrs() == old(self).attrs().insert(
                OBJ_ATTR_QUOTA_CONSUMED,
                AttrVal::U64(bytes),
            ),
            final(self).table_view() == old(self).table_view(),
    {
        self.obj.set_u64(OBJ_ATTR_QUOTA_CONSUMED, bytes);
    }

    /// The object name, as read back from the attribute store.
    pub fn get_name(&self) -> (r: &Vec<u8>)
        requires
            self.wf(),
        ensures
            r@ == quota_name_of(self.attrs()),
    {
        match self.obj.get(OBJ_ATTR_NAME) {
            Some(AttrValue::Str(s)) => s,
            _ => unreached(),
        }
    }

    /// Returns a reference to the [`Table`] this quota belongs to.
    pub fn get_table(&self) -> (r: &Table)
        ensures
            *r == self.table_view(),
    {
        self.table
    }

    /// Assembles the quota-specific data nest payload.
    #[verifier::rlimit(50)]
    fn build_data(&self) -> (data: Vec<u8>)
        requires
            self.wf(),
        ensures
            data@ == quota_data_bytes(self.attrs()),
    {
        let ghost m = self.attrs();
        let ghost seg_bytes: Seq<u8> = if has_u64_at(m, OBJ_ATTR_QUOTA_BYTES) {
            nla_attr(NFTA_QUOTA_BYTES, be64(u64_of(m[OBJ_ATTR_QUOTA_BYTES])))
        } else {
            Seq::empty()
        };
        let ghost seg_consumed: Seq<u8> = if has_u64_at(m, OBJ_ATTR_QUOTA_CONSUMED) {
            nla_attr(NFTA_QUOTA_CONSUMED, be64(u64_of(m[OBJ_ATTR_QUOTA_CONSUMED])))
        } else {
            Seq::empty()
        };
        let ghost seg_flags: Seq<u8> = if has_u32_at(m, OBJ_ATTR_QUOTA_FLAGS) {
            nla_attr(NFTA_QUOTA_FLAGS, be32(u32_of(m[OBJ_ATTR_QUOTA_FLAGS])))
        } else {
            Seq::empty()
        };

        let mut data: Vec<u8> = Vec::new();
        match self.obj.get(OBJ_ATTR_QUOTA_BYTES) {
            Some(AttrValue::U64(b)) => put_attr_u64(&mut data, NFTA_QUOTA_BYTES, *b),
            _ => {},
        }
        proof {
            assert(data@ =~= seg_bytes);
        }
        match self.obj.get(OBJ_ATTR_QUOTA_CONSUMED) {
            Some(AttrValue::U64(b)) => put_attr_u64(&mut data, NFTA_QUOTA_CONSUMED, *b),
            _ => {},
        }
        proof {
            assert(data@ =~= seg_bytes + seg_consumed);
        }
        match self.obj.get(OBJ_ATTR_QUOTA_FLAGS) {
            Some(AttrValue::U32(f)) => put_attr_u32(&mut data, NFTA_QUOTA_FLAGS, *f),
            _ => {},
        }
        proof {
            assert(data@ =~= seg_bytes + seg_consumed + seg_flags);
            assert(data@ == quota_data_bytes(m));
        }
        data
    }

    /// Assembles the full attribute payload of the object message.
    #[verifier::rlimit(50)]
    fn build_payload(&self) -> (payload: Vec<u8>)
        requires
            self.wf(),
        ensures
            payload@ == quota_payload_bytes(self.attrs()),
            payload@.len() <= 140000,
    {
        let ghost m = self.attrs();
        let data: Vec<u8> = self.build_data();

        let emit_data: bool = match self.obj.get(OBJ_ATTR_QUOTA_BYTES) {
            Some(AttrValue::U64(_)) => true,
            _ => match self.obj.get(OBJ_ATTR_QUOTA_CONSUMED) {
                Some(AttrValue::U64(_)) => true,
                _ => match self.obj.get(OBJ_ATTR_QUOTA_FLAGS) {
                    Some(AttrValue::U32(_)) => true,
                    _ => false,
                },
            },
        };
        proof {
            assert(emit_data == has_quota_data(m));
        }

        let ghost seg_table: Seq<u8> = if has_str_at(m, OBJ_ATTR_TABLE) {
            nla_attr(NFTA_OBJ_TABLE, strz(str_of(m[OBJ_ATTR_TABLE])))
        } else {
            Seq::empty()
        };
        let ghost seg_name: Seq<u8> = if has_str_at(m, OBJ_ATTR_NAME) {
            nla_attr(NFTA_OBJ_NAME, strz(str_of(m[OBJ_ATTR_NAME])))
        } else {
            Seq::empty()
        };
        let ghost seg_type: Seq<u8> = if has_u32_at(m, OBJ_ATTR_TYPE) {
            nla_attr(NFTA_OBJ_TYPE, be32(u32_of(m[OBJ_ATTR_TYPE])))
        } else {
            Seq::empty()
        };
        let ghost seg_data: Seq<u8> = if has_quota_data(m) {
            nla_attr(NLA_F_NESTED | NFTA_OBJ_DATA, quota_data_bytes(m))
        } else {
            Seq::empty()
        };

        let mut payload: Vec<u8> = Vec::new();
        match self.obj.get(OBJ_ATTR_TABLE) {
            Some(AttrValue::Str(t)) => put_attr_strz(&mut payload, NFTA_OBJ_TABLE, t),
            _ => {},
        }
        proof {
            assert(payload@ =~= seg_table);
        }
        match self.obj.get(OBJ_ATTR_NAME) {
            Some(AttrValue::Str(n)) => put_attr_strz(&mut payload, NFTA_OBJ_NAME, n),
            _ => {},
        }
        proof {
            assert(payload@ =~= seg_table + seg_name);
        }
        match self.obj.get(OBJ_ATTR_TYPE) {
            Some(AttrValue::U32(t)) => put_attr_u32(&mut payload, NFTA_OBJ_TYPE, *t),
            _ => {},
        }
        proof {
            assert(payload@ =~= seg_table + seg_name + seg_type);
        }
        if emit_data {
            proof {
                assert(data@.len() + 4 <= 0xffff);
            }
            put_attr_bytes(&mut payload, NLA_F_NESTED | NFTA_OBJ_DATA, &data);
        }
        proof {
            assert(payload@ =~= seg_table + seg_name + seg_type + seg_data);
            assert(payload@ == quota_payload_bytes(m));
            assert(payload@.len() <= 140000);
        }
        payload
    }

    /// Serialises the quota into one complete netlink message, appended to
    /// `buf`: header, generic header, then the attribute payload.
    ///
    /// The protocol family in the header is read from the owning table at
    /// build time.  The operation selects message type and flags: an
    /// addition asks for acknowledgement and creation-if-absent, a deletion
    /// for acknowledgement only.
    #[verifier::rlimit(50)]
    pub fn write(&self, buf: &mut Vec<u8>, seq_no: u32, msg_type: MsgType)
        requires
            self.wf(),
        ensures
            final(buf)@ == old(buf)@ + quota_msg_bytes(
                self.attrs(),
                self.table_view().family,
                seq_no,
                msg_type,
            ),
    {
        let ghost buf0 = buf@;
        let ghost m = self.attrs();
        let payload: Vec<u8> = self.build_payload();

        let total: u32 = (payload.len() as u32) + 20;
        let raw_type: u16 = match msg_type {
            MsgType::Add => NFT_MSG_NEWOBJ,
            MsgType::Del => NFT_MSG_DELOBJ,
        };
        let raw_flags: u16 = match msg_type {
            MsgType::Add => NLM_F_ACK | NLM_F_CREATE,
            MsgType::Del => NLM_F_ACK,
        };
        let fam: u8 = self.table.get_family().raw();
        proof {
            assert(total == (20 + quota_payload_bytes(m).len()) as u32);
            assert(raw_type == raw_msg_type(msg_type));
            assert(raw_flags == raw_msg_flags(msg_type));
        }
        put_headers(
            buf,
            total,
            (NFNL_SUBSYS_NFTABLES << 8) | raw_type,
            NLM_F_REQUEST | raw_flags,
            seq_no,
            fam,
        );
        put_bytes(buf, &payload);
        proof {
            assert(buf@ =~= buf0 + quota_msg_bytes(m, self.table_view().family, seq_no, msg_type));
        }
    }
}

/// Law: the stored object name is independent of later attribute writes.
/// Overwriting any attribute other than the name — the comparison flags,
/// the limit, the consumed count — leaves the name as constructed.
pub proof fn lemma_setters_preserve_name(m: Map<u16, AttrVal>, key: u16, value: AttrVal)
    requires
        m.contains_key(OBJ_ATTR_NAME),
        key != OBJ_ATTR_NAME,
    ensures
        quota_name_of(m.insert(key, value)) == quota_name_of(m),
{
}

/// Law: construction records the object name it was given, and a consumed
/// count of zero, before any setter runs.
pub proof fn lemma_initial_attrs(family: ProtoFamily, table_name: Seq<u8>, name: Seq<u8>)
    ensures
        quota_name_of(initial_quota_attrs(family, table_name, name)) == name,
        initial_quota_attrs(family, table_name, name)[OBJ_ATTR_QUOTA_CONSUMED] == AttrVal::U64(0),
{
}

/// Law: serialisation is repeatable.  The same object state, family,
/// sequence number and operation always frame byte-identical output.
pub proof fn lemma_write_repeatable(
    m: Map<u16, AttrVal>,
    family: ProtoFamily,
    seq_no: u32,
    msg_type: MsgType,
    out1: Seq<u8>,
    out2: Seq<u8>,
)
    requires
        out1 == quota_msg_bytes(m, family, seq_no, msg_type),
        out2 == quota_msg_bytes(m, family, seq_no, msg_type),
    ensures
        out1 == out2,
{
}

} // verus!
