use nftnl::attr::AttrValue;
use nftnl::expr::log::{self, Log, LogFlags};
use nftnl::expr::quota_ref::{self, QuotaRef};
use nftnl::expr::{ExprKind, Expression};
use nftnl::quota::{Quota, QuotaType};
use nftnl::table::{ProtoFamily, Table};

#[test]
fn group_mode_renders_group_and_snaplen_only() {
    let handle = Log::new().group(5).snaplen(128).to_expr();
    assert_eq!(handle.kind, ExprKind::Log);
    assert!(matches!(handle.attrs.get(log::LOG_ATTR_GROUP), Some(AttrValue::U16(5))));
    assert!(matches!(handle.attrs.get(log::LOG_ATTR_SNAPLEN), Some(AttrValue::U32(128))));
    assert!(handle.attrs.get(log::LOG_ATTR_QTHRESHOLD).is_none());
    assert!(handle.attrs.get(log::LOG_ATTR_LEVEL).is_none());
    assert!(handle.attrs.get(log::LOG_ATTR_FLAGS).is_none());
    assert!(handle.attrs.get(log::LOG_ATTR_PREFIX).is_none());
}

#[test]
fn group_mode_ignores_level_and_flags() {
    let flags = LogFlags::from_bits(log::UID).unwrap();
    let handle = Log::new().level(4).flags(flags).group(1).qthreshold(20).to_expr();
    assert!(matches!(handle.attrs.get(log::LOG_ATTR_GROUP), Some(AttrValue::U16(1))));
    assert!(matches!(handle.attrs.get(log::LOG_ATTR_QTHRESHOLD), Some(AttrValue::U16(20))));
    assert!(handle.attrs.get(log::LOG_ATTR_LEVEL).is_none());
    assert!(handle.attrs.get(log::LOG_ATTR_FLAGS).is_none());
}

#[test]
fn syslog_mode_ignores_snaplen_and_qthreshold() {
    let flags = LogFlags::from_bits(log::TCPSEQ | log::IPOPT).unwrap();
    let handle = Log::new().snaplen(64).qthreshold(3).level(5).flags(flags).to_expr();
    assert!(handle.attrs.get(log::LOG_ATTR_GROUP).is_none());
    assert!(handle.attrs.get(log::LOG_ATTR_SNAPLEN).is_none());
    assert!(handle.attrs.get(log::LOG_ATTR_QTHRESHOLD).is_none());
    assert!(matches!(handle.attrs.get(log::LOG_ATTR_LEVEL), Some(AttrValue::U32(5))));
    assert!(matches!(handle.attrs.get(log::LOG_ATTR_FLAGS), Some(AttrValue::U32(0x05))));
}

#[test]
fn empty_log_renders_no_attributes() {
    let handle = Log::new().to_expr();
    for key in 1u16..=6 {
        assert!(handle.attrs.get(key).is_none());
    }
}

#[test]
fn prefix_is_encoded_in_both_modes() {
    let prefix = b"audit: ".to_vec();
    let with_group = Log::new().prefix(&prefix).group(2).to_expr();
    match with_group.attrs.get(log::LOG_ATTR_PREFIX) {
        Some(AttrValue::Str(s)) => assert_eq!(s.as_slice(), b"audit: "),
        _ => panic!("prefix attribute missing"),
    }
    let with_level = Log::new().prefix(&prefix).level(1).to_expr();
    match with_level.attrs.get(log::LOG_ATTR_PREFIX) {
        Some(AttrValue::Str(s)) => assert_eq!(s.as_slice(), b"audit: "),
        _ => panic!("prefix attribute missing"),
    }
}

#[test]
fn log_flags_within_mask_round_trip() {
    let all = log::TCPSEQ | log::TCPOPT | log::IPOPT | log::UID | log::MACDECODE;
    assert_eq!(all, log::MASK);
    let flags = LogFlags::from_bits(all).unwrap();
    assert_eq!(flags.bits(), all);
    let handle = Log::new().flags(flags).to_expr();
    match handle.attrs.get(log::LOG_ATTR_FLAGS) {
        Some(AttrValue::U32(v)) => assert_eq!(*v as u8, all),
        _ => panic!("flags attribute missing"),
    }
}

#[test]
fn log_flags_outside_mask_are_rejected() {
    assert!(LogFlags::from_bits(0x10).is_none());
    assert!(LogFlags::from_bits(log::MASK | 0x10).is_none());
    assert!(LogFlags::from_bits(0x40).is_none());
    assert_eq!(LogFlags::from_bits_truncate(0x3f).bits(), log::MASK);
}

#[test]
fn log_flags_union_combines_bits() {
    let a = LogFlags::from_bits(log::TCPSEQ).unwrap();
    let b = LogFlags::from_bits(log::UID).unwrap();
    assert_eq!(a.union(b).bits(), log::TCPSEQ | log::UID);
}

#[test]
fn quota_ref_renders_name_and_type() {
    let table = Table::new(ProtoFamily::Ipv4, b"filter".to_vec());
    let quota = Quota::new(&b"daily".to_vec(), &table);
    let handle = QuotaRef::new(&quota).to_expr();
    assert_eq!(handle.kind, ExprKind::Objref);
    match handle.attrs.get(quota_ref::OBJREF_ATTR_IMM_NAME) {
        Some(AttrValue::Str(s)) => assert_eq!(s.as_slice(), quota.get_name().as_slice()),
        _ => panic!("name attribute missing"),
    }
    assert!(matches!(
        handle.attrs.get(quota_ref::OBJREF_ATTR_IMM_TYPE),
        Some(AttrValue::U32(2))
    ));
}

#[test]
fn quota_ref_name_survives_setters() {
    let table = Table::new(ProtoFamily::Inet, b"t".to_vec());
    let mut quota = Quota::new(&b"monthly".to_vec(), &table);
    quota.set_type(QuotaType::Over);
    quota.set_limit(5);
    quota.set_consumed(1);
    let handle = QuotaRef::new(&quota).to_expr();
    match handle.attrs.get(quota_ref::OBJREF_ATTR_IMM_NAME) {
        Some(AttrValue::Str(s)) => assert_eq!(s.as_slice(), b"monthly"),
        _ => panic!("name attribute missing"),
    }
}

#[test]
fn expression_dispatch_matches_variants() {
    let log_handle = Expression::Log(Log::new().group(9)).to_expr();
    assert_eq!(log_handle.kind, ExprKind::Log);
    assert!(matches!(log_handle.attrs.get(log::LOG_ATTR_GROUP), Some(AttrValue::U16(9))));

    let table = Table::new(ProtoFamily::Ipv4, b"filter".to_vec());
    let quota = Quota::new(&b"daily".to_vec(), &table);
    let ref_handle = Expression::QuotaRef(QuotaRef::new(&quota)).to_expr();
    assert_eq!(ref_handle.kind, ExprKind::Objref);
}
