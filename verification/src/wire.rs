//! The binary netlink wire format: type-length-value attribute framing
//! and message headers.
//!
//! The byte layout is the one the nftables kernel interface mandates on the
//! targeted little-endian hosts: the message header and every attribute
//! header carry their integers in little-endian (host) order, while the
//! integer payloads of nftables attributes travel in big-endian (network)
//! order.  String payloads are NUL-terminated, and every attribute is padded
//! with zero bytes to a four-byte boundary.

use vstd::prelude::*;

verus! {

/// An attribute header whose type carries this bit holds nested attributes.
pub const NLA_F_NESTED: u16 = 0x8000;

/// The two little-endian bytes of a 16-bit integer.
pub open spec fn le16(v: u16) -> Seq<u8> {
    seq![v as u8, (v >> 8) as u8]
}

/// The four little-endian bytes of a 32-bit integer.
pub open spec fn le32(v: u32) -> Seq<u8> {
    seq![v as u8, (v >> 8) as u8, (v >> 16) as u8, (v >> 24) as u8]
}

/// The two big-endian (network order) bytes of a 16-bit integer.
pub open spec fn be16(v: u16) -> Seq<u8> {
    seq![(v >> 8) as u8, v as u8]
}

/// The four big-endian (network order) bytes of a 32-bit integer.
pub open spec fn be32(v: u32) -> Seq<u8> {
    seq![(v >> 24) as u8, (v >> 16) as u8, (v >> 8) as u8, v as u8]
}

/// The eight big-endian (network order) bytes of a 64-bit integer.
pub open spec fn be64(v: u64) -> Seq<u8> {
    seq![
        (v >> 56) as u8,
        (v >> 48) as u8,
        (v >> 40) as u8,
        (v >> 32) as u8,
        (v >> 24) as u8,
        (v >> 16) as u8,
        (v >> 8) as u8,
        v as u8,
    ]
}

/// How many zero bytes pad a payload of `n` bytes to a four-byte boundary.
pub open spec fn nla_pad_len(n: int) -> int {
    if n % 4 == 0 {
        0
    } else {
        4 - n % 4
    }
}

/// `n` zero bytes.
pub open spec fn zero_bytes(n: int) -> Seq<u8> {
    Seq::new(n as nat, |i: int| 0u8)
}

/// One complete attribute: length, type, payload, zero padding.
///
/// The length field counts the four header bytes and the payload, but not
/// the padding.
pub open spec fn nla_attr(atype: u16, payload: Seq<u8>) -> Seq<u8> {
    le16((payload.len() + 4) as u16) + le16(atype) + payload + zero_bytes(
        nla_pad_len(payload.len() as int),
    )
}

/// A byte-string payload with its terminating NUL.
pub open spec fn strz(s: Seq<u8>) -> Seq<u8> {
    s + seq![0u8]
}

/// A byte string that one NUL-terminated attribute payload can carry: it
/// holds no NUL of its own, and string, terminator and attribute header
/// together stay within the 16-bit attribute length field.
pub open spec fn str_encodable(s: Seq<u8>) -> bool {
    s.len() + 5 <= 0xffff && forall|i: int| 0 <= i < s.len() ==> #[trigger] s[i] != 0
}

/// The sixteen bytes of a netlink message header: total length, message
/// type, flags, sequence number, and a zero port identifier.
pub open spec fn nlmsg_header(total_len: u32, mtype: u16, mflags: u16, seq_no: u32) -> Seq<u8> {
    le32(total_len) + le16(mtype) + le16(mflags) + le32(seq_no) + le32(0)
}

/// The four bytes of the nfnetlink generic header that follows the message
/// header: protocol family, interface version zero, and a zero resource
/// identifier in network order.
pub open spec fn nfgen_header(family: u8) -> Seq<u8> {
    seq![family, 0u8, 0u8, 0u8]
}

/// Appends a 16-bit integer in little-endian order.
pub fn put_u16_le(buf: &mut Vec<u8>, v: u16)
    ensures
        final(buf)@ == old(buf)@ + le16(v),
{
    let ghost buf0 = buf@;
    buf.push(v as u8);
    buf.push((v >> 8) as u8);
    proof {
        assert(buf@ =~= buf0 + le16(v));
    }
}

/// Appends a 32-bit integer in little-endian order.
pub fn put_u32_le(buf: &mut Vec<u8>, v: u32)
    ensures
        final(buf)@ == old(buf)@ + le32(v),
{
    let ghost buf0 = buf@;
    buf.push(v as u8);
    buf.push((v >> 8) as u8);
    buf.push((v >> 16) as u8);
    buf.push((v >> 24) as u8);
    proof {
        assert(buf@ =~= buf0 + le32(v));
    }
}

/// Appends a 32-bit integer in big-endian (network) order.
pub fn put_u32_be(buf: &mut Vec<u8>, v: u32)
    ensures
        final(buf)@ == old(buf)@ + be32(v),
{
    let ghost buf0 = buf@;
    buf.push((v >> 24) as u8);
    buf.push((v >> 16) as u8);
    buf.push((v >> 8) as u8);
    buf.push(v as u8);
    proof {
        assert(buf@ =~= buf0 + be32(v));
    }
}

/// Appends a 64-bit integer in big-endian (network) order.
pub fn put_u64_be(buf: &mut Vec<u8>, v: u64)
    ensures
        final(buf)@ == old(buf)@ + be64(v),
{
    let ghost buf0 = buf@;
    buf.push((v >> 56) as u8);
    buf.push((v >> 48) as u8);
    buf.push((v >> 40) as u8);
    buf.push((v >> 32) as u8);
    buf.push((v >> 24) as u8);
    buf.push((v >> 16) as u8);
    buf.push((v >> 8) as u8);
    buf.push(v as u8);
    proof {
        assert(buf@ =~= buf0 + be64(v));
    }
}

/// Appends a copy of `src`.
pub fn put_bytes(buf: &mut Vec<u8>, src: &Vec<u8>)
    ensures
        final(buf)@ == old(buf)@ + src@,
{
    let ghost buf0 = buf@;
    let mut i: usize = 0;
    while i < src.len()
        invariant
            i <= src@.len(),
            buf@ == buf0 + src@.take(i as int),
        decreases src@.len() - i,
    {
        buf.push(src[i]);
        proof {
            assert(buf@ =~= buf0 + src@.take(i as int + 1));
        }
        i += 1;
    }
    proof {
        assert(buf0 + src@.take(src@.len() as int) =~= buf0 + src@);
    }
}

/// Appends `pad` zero bytes.
fn put_zeros(buf: &mut Vec<u8>, pad: usize)
    ensures
        final(buf)@ == old(buf)@ + zero_bytes(pad as int),
{
    let ghost buf0 = buf@;
    let mut k: usize = 0;
    while k < pad
        invariant
            k <= pad,
            buf@ == buf0 + zero_bytes(k as int),
        decreases pad - k,
    {
        buf.push(0);
        proof {
            assert(buf@ =~= buf0 + zero_bytes(k as int + 1));
        }
        k += 1;
    }
}

/// Appends one attribute holding a 32-bit integer payload in network order.
pub fn put_attr_u32(buf: &mut Vec<u8>, atype: u16, v: u32)
    ensures
        final(buf)@ == old(buf)@ + nla_attr(atype, be32(v)),
{
    let ghost buf0 = buf@;
    put_u16_le(buf, 8);
    put_u16_le(buf, atype);
    put_u32_be(buf, v);
    proof {
        assert(buf@ =~= buf0 + nla_attr(atype, be32(v)));
    }
}

/// Appends one attribute holding a 64-bit integer payload in network order.
pub fn put_attr_u64(buf: &mut Vec<u8>, atype: u16, v: u64)
    ensures
        final(buf)@ == old(buf)@ + nla_attr(atype, be64(v)),
{
    let ghost buf0 = buf@;
    put_u16_le(buf, 12);
    put_u16_le(buf, atype);
    put_u64_be(buf, v);
    proof {
        assert(buf@ =~= buf0 + nla_attr(atype, be64(v)));
    }
}

/// Appends one attribute holding a NUL-terminated string payload.
pub fn put_attr_strz(buf: &mut Vec<u8>, atype: u16, s: &Vec<u8>)
    requires
        s@.len() + 5 <= 0xffff,
    ensures
        final(buf)@ == old(buf)@ + nla_attr(atype, strz(s@)),
{
    let ghost buf0 = buf@;
    let payload_len: usize = s.len() + 1;
    put_u16_le(buf, (payload_len + 4) as u16);
    put_u16_le(buf, atype);
    put_bytes(buf, s);
    buf.push(0);
    let pad: usize = (4 - (payload_len % 4)) % 4;
    proof {
        assert(pad == nla_pad_len(payload_len as int));
    }
    put_zeros(buf, pad);
    proof {
        assert(buf@ =~= buf0 + nla_attr(atype, strz(s@)));
    }
}

/// Appends one attribute holding raw payload bytes, padded to alignment.
pub fn put_attr_bytes(buf: &mut Vec<u8>, atype: u16, payload: &Vec<u8>)
    requires
        payload@.len() + 4 <= 0xffff,
    ensures
        final(buf)@ == old(buf)@ + nla_attr(atype, payload@),
{
    let ghost buf0 = buf@;
    put_u16_le(buf, (payload.len() + 4) as u16);
    put_u16_le(buf, atype);
    put_bytes(buf, payload);
    let pad: usize = (4 - (payload.len() % 4)) % 4;
    proof {
        assert(pad == nla_pad_len(payload@.len() as int));
    }
    put_zeros(buf, pad);
    proof {
        assert(buf@ =~= buf0 + nla_attr(atype, payload@));
    }
}

/// Appends the sixteen-byte netlink header followed by the four-byte
/// nfnetlink generic header.
pub fn put_headers(buf: &mut Vec<u8>, total_len: u32, mtype: u16, mflags: u16, seq_no: u32, family: u8)
    ensures
        final(buf)@ == old(buf)@ + nlmsg_header(total_len, mtype, mflags, seq_no) + nfgen_header(
            family,
        ),
{
    let ghost buf0 = buf@;
    put_u32_le(buf, total_len);
    put_u16_le(buf, mtype);
    put_u16_le(buf, mflags);
    put_u32_le(buf, seq_no);
    put_u32_le(buf, 0);
    buf.push(family);
    buf.push(0);
    buf.push(0);
    buf.push(0);
    proof {
        assert(nfgen_header(family) =~= seq![family, 0u8, 0u8, 0u8]);
        assert(buf@ =~= buf0 + nlmsg_header(total_len, mtype, mflags, seq_no) + nfgen_header(
            family,
        ));
    }
}

} // verus!
