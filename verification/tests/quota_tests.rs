use nftnl::MsgType;
use nftnl::attr::AttrValue;
use nftnl::quota::{Quota, QuotaType};
use nftnl::table::{ProtoFamily, Table};

fn filter_table() -> Table {
    Table::new(ProtoFamily::Ipv4, b"filter".to_vec())
}

#[test]
fn get_name_returns_constructed_name() {
    let table = filter_table();
    let quota = Quota::new(&b"daily".to_vec(), &table);
    assert_eq!(quota.get_name().as_slice(), b"daily");
}

#[test]
fn get_name_unchanged_by_setters() {
    let table = filter_table();
    let mut quota = Quota::new(&b"daily".to_vec(), &table);
    quota.set_type(QuotaType::Over);
    quota.set_limit(1_000_000);
    quota.set_consumed(44);
    quota.set_type(QuotaType::Until);
    assert_eq!(quota.get_name().as_slice(), b"daily");
}

#[test]
fn get_table_returns_owning_table() {
    let table = filter_table();
    let quota = Quota::new(&b"daily".to_vec(), &table);
    assert_eq!(quota.get_table().get_family(), ProtoFamily::Ipv4);
    assert_eq!(quota.get_table().get_name().as_slice(), b"filter");
}

#[test]
fn fresh_quota_serialises_consumed_zero() {
    let table = filter_table();
    let quota = Quota::new(&b"q".to_vec(), &table);
    let mut buf: Vec<u8> = Vec::new();
    quota.write(&mut buf, 0, MsgType::Add);
    let mut expected: Vec<u8> = Vec::new();
    // netlink header: total length 64, type new-object, request|ack|create
    expected.extend_from_slice(&[64, 0, 0, 0, 0x12, 0x0a, 0x05, 0x04, 0, 0, 0, 0, 0, 0, 0, 0]);
    // nfgenmsg: family 2 (IPv4), version 0, res_id 0
    expected.extend_from_slice(&[2, 0, 0, 0]);
    // table name "filter", NUL-terminated, padded to 12
    expected.extend_from_slice(&[11, 0, 1, 0, b'f', b'i', b'l', b't', b'e', b'r', 0, 0]);
    // object name "q", NUL-terminated, padded to 8
    expected.extend_from_slice(&[6, 0, 2, 0, b'q', 0, 0, 0]);
    // object type tag: quota (2), big-endian
    expected.extend_from_slice(&[8, 0, 3, 0, 0, 0, 0, 2]);
    // nested data: only the consumed counter, zero
    expected.extend_from_slice(&[16, 0, 4, 0x80]);
    expected.extend_from_slice(&[12, 0, 4, 0, 0, 0, 0, 0, 0, 0, 0, 0]);
    assert_eq!(buf, expected);
}

#[test]
fn add_message_carries_full_configuration() {
    let table = filter_table();
    let mut quota = Quota::new(&b"daily".to_vec(), &table);
    quota.set_type(QuotaType::Over);
    quota.set_limit(1_000_000);
    let mut buf: Vec<u8> = Vec::new();
    quota.write(&mut buf, 7, MsgType::Add);
    let mut expected: Vec<u8> = Vec::new();
    // netlink header: total length 88, type new-object, request|ack|create, seq 7
    expected.extend_from_slice(&[88, 0, 0, 0, 0x12, 0x0a, 0x05, 0x04, 7, 0, 0, 0, 0, 0, 0, 0]);
    // nfgenmsg: family 2 (IPv4)
    expected.extend_from_slice(&[2, 0, 0, 0]);
    // table name "filter"
    expected.extend_from_slice(&[11, 0, 1, 0, b'f', b'i', b'l', b't', b'e', b'r', 0, 0]);
    // object name "daily", padded to 12
    expected.extend_from_slice(&[10, 0, 2, 0, b'd', b'a', b'i', b'l', b'y', 0, 0, 0]);
    // object type tag: quota (2)
    expected.extend_from_slice(&[8, 0, 3, 0, 0, 0, 0, 2]);
    // nested data: limit 1_000_000, consumed 0, inverse flag set
    expected.extend_from_slice(&[36, 0, 4, 0x80]);
    expected.extend_from_slice(&[12, 0, 1, 0, 0, 0, 0, 0, 0, 0x0f, 0x42, 0x40]);
    expected.extend_from_slice(&[12, 0, 4, 0, 0, 0, 0, 0, 0, 0, 0, 0]);
    expected.extend_from_slice(&[8, 0, 2, 0, 0, 0, 0, 1]);
    assert_eq!(buf, expected);
}

#[test]
fn del_message_type_and_flags() {
    let table = filter_table();
    let quota = Quota::new(&b"daily".to_vec(), &table);
    let mut buf: Vec<u8> = Vec::new();
    quota.write(&mut buf, 3, MsgType::Del);
    // type: delete-object in the nftables subsystem; flags: request|ack only
    assert_eq!(&buf[4..8], &[0x14, 0x0a, 0x05, 0x00]);
    assert_eq!(&buf[8..12], &[3, 0, 0, 0]);
}

#[test]
fn write_twice_is_byte_identical() {
    let table = filter_table();
    let mut quota = Quota::new(&b"daily".to_vec(), &table);
    quota.set_type(QuotaType::Over);
    quota.set_limit(9_999);
    quota.set_consumed(17);
    let mut first: Vec<u8> = Vec::new();
    quota.write(&mut first, 42, MsgType::Add);
    let mut second: Vec<u8> = Vec::new();
    quota.write(&mut second, 42, MsgType::Add);
    assert_eq!(first, second);
}

#[test]
fn write_appends_after_existing_bytes() {
    let table = filter_table();
    let quota = Quota::new(&b"q".to_vec(), &table);
    let mut buf: Vec<u8> = vec![0xde, 0xad];
    quota.write(&mut buf, 1, MsgType::Add);
    assert_eq!(&buf[..2], &[0xde, 0xad]);
    assert_eq!(buf.len(), 2 + 64);
}

#[test]
fn until_type_encodes_zero_flag() {
    let table = filter_table();
    let mut quota = Quota::new(&b"q".to_vec(), &table);
    quota.set_type(QuotaType::Until);
    let mut buf: Vec<u8> = Vec::new();
    quota.write(&mut buf, 0, MsgType::Add);
    // the data nest ends with the flags attribute carrying zero
    assert_eq!(&buf[buf.len() - 8..], &[8, 0, 2, 0, 0, 0, 0, 0]);
}

#[test]
fn set_consumed_overwrites_default() {
    let table = filter_table();
    let mut quota = Quota::new(&b"q".to_vec(), &table);
    quota.set_consumed(0x0102030405060708);
    let mut buf: Vec<u8> = Vec::new();
    quota.write(&mut buf, 0, MsgType::Add);
    // the data nest holds the seeded counter in network byte order
    assert_eq!(&buf[buf.len() - 12..], &[12, 0, 4, 0, 1, 2, 3, 4, 5, 6, 7, 8]);
}

#[test]
fn inet_family_in_header() {
    let table = Table::new(ProtoFamily::Inet, b"t".to_vec());
    let quota = Quota::new(&b"q".to_vec(), &table);
    let mut buf: Vec<u8> = Vec::new();
    quota.write(&mut buf, 0, MsgType::Add);
    assert_eq!(buf[16], 1);
}

#[test]
fn attr_store_overwrites_by_key() {
    let mut store = nftnl::attr::AttrStore::new();
    store.set_u32(9, 1);
    store.set_u32(9, 2);
    match store.get(9) {
        Some(AttrValue::U32(v)) => assert_eq!(*v, 2),
        _ => panic!("attribute missing or mistyped"),
    }
    assert!(store.get(10).is_none());
}

#[test]
fn attr_store_holds_every_width() {
    let mut store = nftnl::attr::AttrStore::new();
    store.set_u8(1, 0xab);
    store.set_u16(2, 0xabcd);
    store.set_u64(3, u64::MAX);
    store.set_str(4, b"name".to_vec());
    assert!(matches!(store.get(1), Some(AttrValue::U8(0xab))));
    assert!(matches!(store.get(2), Some(AttrValue::U16(0xabcd))));
    assert!(matches!(store.get(3), Some(AttrValue::U64(u64::MAX))));
    match store.get(4) {
        Some(AttrValue::Str(s)) => assert_eq!(s.as_slice(), b"name"),
        _ => panic!("string attribute missing"),
    }
}
