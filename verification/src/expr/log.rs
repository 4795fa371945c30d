//! The packet-logging expression.
//!
//! A [`Log`] is a configuration record with six independent optional
//! fields, each absent by default.  Rendering obeys one hard contract: the
//! presence of `group` selects the encoding mode.  With `group` set, the
//! expression logs to a netlink group and only `group`, `snaplen`,
//! `qthreshold` (and `prefix`) are encoded — `level` and `flags` are
//! silently ignored even if set.  With `group` absent, the expression logs
//! to syslog and only `level` and `flags` (and `prefix`) are encoded.

use vstd::prelude::*;
use crate::attr::{AttrStore, AttrVal, clone_bytes};
use crate::expr::{ExprHandle, ExprKind};

verus! {

/// Flag bit: log the TCP sequence numbers.
pub const TCPSEQ: u8 = 0x01;

/// Flag bit: log the TCP options.
pub const TCPOPT: u8 = 0x02;

/// Flag bit: log the IP options.
pub const IPOPT: u8 = 0x04;

/// Flag bit: log the owning user id.
pub const UID: u8 = 0x08;

/// Flag bit: decode the MAC header.
pub const MACDECODE: u8 = 0x20;

/// All valid flag bits together; bits outside this mask are invalid.
pub const MASK: u8 = 0x2f;

/// Handle-field key of the log prefix string.
pub const LOG_ATTR_PREFIX: u16 = 1;

/// Handle-field key of the netlink group.
pub const LOG_ATTR_GROUP: u16 = 2;

/// Handle-field key of the capture snapshot length.
pub const LOG_ATTR_SNAPLEN: u16 = 3;

/// Handle-field key of the queue threshold.
pub const LOG_ATTR_QTHRESHOLD: u16 = 4;

/// Handle-field key of the syslog level.
pub const LOG_ATTR_LEVEL: u16 = 5;

/// Handle-field key of the syslog flag bits.
pub const LOG_ATTR_FLAGS: u16 = 6;

/// A set of logging flag bits over the fixed enumeration
/// {[`TCPSEQ`], [`TCPOPT`], [`IPOPT`], [`UID`], [`MACDECODE`]}.
///
/// The render step does not validate flag values; rejecting or stripping
/// bits outside [`MASK`] is the caller's responsibility, and the
/// constructors here are the means to do it.
#[derive(Clone, Copy, Debug, PartialEq, Eq, Structural)]
pub struct LogFlags {
    /// The raw flag bits.
    pub bits: u8,
}

impl LogFlags {
    /// Builds a flag set from raw bits, rejecting bits outside [`MASK`].
    pub fn from_bits(bits: u8) -> (r: Option<LogFlags>)
        ensures
            r is Some <==> bits & !MASK == 0,
            r matches Some(f) ==> f.bits == bits,
    {
        if bits & !MASK == 0 {
            Some(LogFlags { bits })
        } else {
            None
        }
    }

    /// Builds a flag set from raw bits, stripping bits outside [`MASK`].
    pub fn from_bits_truncate(bits: u8) -> (r: LogFlags)
        ensures
            r.bits == bits & MASK,
    {
        LogFlags { bits: bits & MASK }
    }

    /// The raw flag bits.
    pub fn bits(&self) -> (r: u8)
        ensures
            r == self.bits,
    {
        self.bits
    }

    /// The union of two flag sets.
    pub fn union(self, other: LogFlags) -> (r: LogFlags)
        ensures
            r.bits == self.bits | other.bits,
    {
        LogFlags { bits: self.bits | other.bits }
    }
}

/// A packet-logging expression configuration: six optional fields, each
/// absent by default.
pub struct Log {
    /// The netlink group to log to; its presence selects group mode.
    pub group: Option<u16>,
    /// How many bytes of each packet to capture, in group mode.
    pub snaplen: Option<u32>,
    /// The queue threshold, in group mode.
    pub qthreshold: Option<u16>,
    /// The syslog level, in syslog mode.
    pub level: Option<i32>,
    /// The logging flag bits, in syslog mode.
    pub flags: Option<LogFlags>,
    /// A prefix string, encoded in either mode.
    pub prefix: Option<Vec<u8>>,
}

/// The attribute set rendering a [`Log`] produces: the prefix if present,
/// then either the group-mode fields or the syslog-mode fields, selected
/// solely by the presence of `group`.
pub open spec fn log_attrs(lg: Log) -> Map<u16, AttrVal> {
    let m0 = Map::<u16, AttrVal>::empty();
    let m1 = if lg.prefix is Some {
        m0.insert(LOG_ATTR_PREFIX, AttrVal::Str(lg.prefix->Some_0@))
    } else {
        m0
    };
    if lg.group is Some {
        let m2 = m1.insert(LOG_ATTR_GROUP, AttrVal::U16(lg.group->Some_0));
        let m3 = if lg.snaplen is Some {
            m2.insert(LOG_ATTR_SNAPLEN, AttrVal::U32(lg.snaplen->Some_0))
        } else {
            m2
        };
        if lg.qthreshold is Some {
            m3.insert(LOG_ATTR_QTHRESHOLD, AttrVal::U16(lg.qthreshold->Some_0))
        } else {
            m3
        }
    } else {
        let m2 = if lg.level is Some {
            m1.insert(LOG_ATTR_LEVEL, AttrVal::U32(lg.level->Some_0 as u32))
        } else {
            m1
        };
        if lg.flags is Some {
            m2.insert(LOG_ATTR_FLAGS, AttrVal::U32(lg.flags->Some_0.bits as u32))
        } else {
            m2
        }
    }
}

impl Log {
    /// Creates a log expression with every field absent.
    pub fn new() -> (r: Self)
        ensures
            r.group is None,
            r.snaplen is None,
            r.qthreshold is None,
            r.level is None,
            r.flags is None,
            r.prefix is None,
    {
        Self {
            group: None,
            snaplen: None,
            qthreshold: None,
            level: None,
            flags: None,
            prefix: None,
        }
    }

    /// Sets the netlink group, switching the expression into group mode.
    pub fn group(self, group: u16) -> (r: Self)
        ensures
            r.group == Some(group),
            r.snaplen == self.snaplen,
            r.qthreshold == self.qthreshold,
            r.level == self.level,
            r.flags == self.flags,
            r.prefix == self.prefix,
    {
        Log { group: Some(group), ..self }
    }

    /// Sets the capture snapshot length, encoded only in group mode.
    pub fn snaplen(self, snaplen: u32) -> (r: Self)
        ensures
            r.snaplen == Some(snaplen),
            r.group == self.group,
            r.qthreshold == self.qthreshold,
            r.level == self.level,
            r.flags == self.flags,
            r.prefix == self.prefix,
    {
        Log { snaplen: Some(snaplen), ..self }
    }

    /// Sets the queue threshold, encoded only in group mode.
    pub fn qthreshold(self, qthreshold: u16) -> (r: Self)
        ensures
            r.qthreshold == Some(qthreshold),
            r.group == self.group,
            r.snaplen == self.snaplen,
            r.level == self.level,
            r.flags == self.flags,
            r.prefix == self.prefix,
    {
        Log { qthreshold: Some(qthreshold), ..self }
    }

    /// Sets the syslog level, encoded only in syslog mode.
    pub fn level(self, level: i32) -> (r: Self)
        ensures
            r.level == Some(level),
            r.group == self.group,
            r.snaplen == self.snaplen,
            r.qthreshold == self.qthreshold,
            r.flags == self.flags,
            r.prefix == self.prefix,
    {
        Log { level: Some(level), ..self }
    }

    /// Sets the logging flags, encoded only in syslog mode.
    pub fn flags(self, flags: LogFlags) -> (r: Self)
        ensures
            r.flags == Some(flags),
            r.group == self.group,
            r.snaplen == self.snaplen,
            r.qthreshold == self.qthreshold,
            r.level == self.level,
            r.prefix == self.prefix,
    {
        Log { flags: Some(flags), ..self }
    }

    /// Sets the prefix string, encoded in either mode.
    pub fn prefix(self, prefix: &Vec<u8>) -> (r: Self)
        ensures
            r.prefix matches Some(p) && p@ == prefix@,
            r.group == self.group,
            r.snaplen == self.snaplen,
            r.qthreshold == self.qthreshold,
            r.level == self.level,
            r.flags == self.flags,
    {
        Log { prefix: Some(clone_bytes(prefix)), ..self }
    }

    /// Renders the configuration into a fresh native expression handle
    /// holding exactly the attribute set of [`log_attrs`].
    pub fn to_expr(&self) -> (r: ExprHandle)
        ensures
            r.kind == ExprKind::Log,
            r.attrs.wf(),
            r.attrs@ == log_attrs(*self),
    {
        let mut attrs = AttrStore::new();
        match &self.prefix {
            Some(p) => attrs.set_str(LOG_ATTR_PREFIX, clone_bytes(p)),
            None => {},
        }
        match self.group {
            Some(group) => {
                attrs.set_u16(LOG_ATTR_GROUP, group);
                match self.snaplen {
                    Some(snaplen) => attrs.set_u32(LOG_ATTR_SNAPLEN, snaplen),
                    None => {},
                }
                match self.qthreshold {
                    Some(qthreshold) => attrs.set_u16(LOG_ATTR_QTHRESHOLD, qthreshold),
                    None => {},
                }
            },
            None => {
                match self.level {
                    Some(level) => attrs.set_u32(LOG_ATTR_LEVEL, level as u32),
                    None => {},
                }
                match self.flags {
                    Some(flags) => attrs.set_u32(LOG_ATTR_FLAGS, flags.bits() as u32),
                    None => {},
                }
            },
        }
        ExprHandle { kind: ExprKind::Log, attrs }
    }
}

/// Law: rendering encodes exactly the attribute set the group-presence
/// rule dictates.  With `group` set, `level` and `flags` are never
/// present; with `group` absent, `snaplen` and `qthreshold` are never
/// present; `prefix` is present in either mode exactly when set; and no
/// attribute outside the six log fields ever appears.
pub proof fn lemma_log_mode_exclusive(lg: Log)
    ensures
        log_attrs(lg).contains_key(LOG_ATTR_GROUP) <==> lg.group is Some,
        log_attrs(lg).contains_key(LOG_ATTR_SNAPLEN) <==> lg.group is Some && lg.snaplen is Some,
        log_attrs(lg).contains_key(LOG_ATTR_QTHRESHOLD) <==> lg.group is Some && lg.qthreshold
            is Some,
        log_attrs(lg).contains_key(LOG_ATTR_LEVEL) <==> lg.group is None && lg.level is Some,
        log_attrs(lg).contains_key(LOG_ATTR_FLAGS) <==> lg.group is None && lg.flags is Some,
        log_attrs(lg).contains_key(LOG_ATTR_PREFIX) <==> lg.prefix is Some,
        forall|k: u16|
            !(LOG_ATTR_PREFIX <= k <= LOG_ATTR_FLAGS) ==> !(#[trigger] log_attrs(
                lg,
            ).contains_key(k)),
{
}

/// Law: flag bits wholly inside [`MASK`] pass through the rendered
/// attribute unaltered — the 32-bit attribute payload carries the bits
/// exactly, and narrowing it back recovers them.
pub proof fn lemma_log_flags_round_trip(lg: Log)
    requires
        lg.group is None,
        lg.flags is Some,
    ensures
        log_attrs(lg)[LOG_ATTR_FLAGS] == AttrVal::U32(lg.flags->Some_0.bits as u32),
        (lg.flags->Some_0.bits as u32) as u8 == lg.flags->Some_0.bits,
{
}

} // verus!
