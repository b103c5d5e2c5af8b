use nfs4c_native::attrs::{
    basic_attr_bitmap, build_request_bitmap, get_file_size, get_filetype, AttrId, Bitmap4,
    FAttr4, FAttr4Type, NFSFType4,
};
use nfs4c_native::error::{handle_error, throw_nfs_error, HostCategory, NativeError, NfscrsJniError};
use nfs4c_native::handles::HandleRegistry;
use nfs4c_native::ops::{
    decode_attributes, get_file_size_from_attrs, int_to_open_options, read_capacity, read_file,
    staged_copy, write_file, write_step, AbsolutePath, WriteStep,
};
use nfs4c_native::time::{checked_millis, timestamp_to_millis, NfsTime};

fn t(seconds: i64, nseconds: u32) -> NfsTime {
    NfsTime { seconds, nseconds }
}

fn full_attrs(kind: NFSFType4) -> FAttr4 {
    FAttr4 {
        values: vec![
            FAttr4Type::TimeAccess(t(10, 999_999_999)),
            FAttr4Type::TimeModify(t(20, 0)),
            FAttr4Type::TimeCreate(t(30, 1_500_000)),
            FAttr4Type::Type(kind),
            FAttr4Type::Size(10),
            FAttr4Type::Mode(0o40755),
        ],
    }
}

#[test]
fn millis_boundaries() {
    assert_eq!(timestamp_to_millis(1, 999_999_999), 1999);
    assert_eq!(timestamp_to_millis(1, 0), 1000);
    assert_eq!(timestamp_to_millis(0, 999_999), 0);
    assert_eq!(timestamp_to_millis(-1, 500_000_000), -500);
}

#[test]
fn millis_monotonic_examples() {
    assert!(timestamp_to_millis(1, 999_999_999) <= timestamp_to_millis(2, 0));
    assert!(timestamp_to_millis(2, 0) <= timestamp_to_millis(2, 1_000_000));
}

#[test]
fn millis_overflow_is_refused() {
    assert_eq!(checked_millis(t(i64::MAX, 0)), None);
    assert_eq!(checked_millis(t(i64::MIN, 0)), None);
    assert_eq!(checked_millis(t(3, 7_000_000)), Some(3007));
}

#[test]
fn bitmap_order_independent() {
    let a = build_request_bitmap(&vec![AttrId::Size, AttrId::Type]);
    let b = build_request_bitmap(&vec![AttrId::Type, AttrId::Size]);
    let c = build_request_bitmap(&vec![AttrId::Type, AttrId::Size, AttrId::Type]);
    assert_eq!(a, b);
    assert_eq!(a, c);
    assert_eq!(a, Bitmap4 { word0: 0x12, word1: 0 });
}

#[test]
fn core_bitmap_words() {
    let r = basic_attr_bitmap();
    assert_eq!(r, Bitmap4 { word0: 0x12, word1: 0x248002 });
    let all = build_request_bitmap(&vec![
        AttrId::Mode,
        AttrId::Size,
        AttrId::Type,
        AttrId::TimeCreate,
        AttrId::TimeModify,
        AttrId::TimeAccess,
    ]);
    assert_eq!(all, r);
}

#[test]
fn native_error_table() {
    let s = || "x".to_string();
    let cases = vec![
        (NativeError::Connection(s()), HostCategory::ConnectFailure, "Failed to connect: x"),
        (NativeError::ReadMessage(s()), HostCategory::IOFailure, "Failed to read message: x"),
        (NativeError::SendMessage(s()), HostCategory::IOFailure, "Failed to send message: x"),
        (NativeError::Permission(s()), HostCategory::SecurityFailure, "Permission denied: x"),
        (NativeError::ReplyDenied(s()), HostCategory::IOFailure, "RPC reply denied: x"),
        (NativeError::EmptyReplyBody, HostCategory::EndOfStreamFailure, "Empty reply body"),
        (NativeError::NFSStatError(s()), HostCategory::IOFailure, "NFS stat error: x"),
        (NativeError::InnerError(s()), HostCategory::InternalFailure, "Inner error: x"),
        (NativeError::OperationError(s()), HostCategory::InternalFailure, "Operation error: x"),
    ];
    for (e, cat, msg) in cases {
        let f = throw_nfs_error(&e);
        assert_eq!(f.category, cat);
        assert_eq!(f.message, msg);
        let g = handle_error(&NfscrsJniError::NFSCRSError(e));
        assert_eq!(g.category, cat);
        assert_eq!(g.message, msg);
    }
}

#[test]
fn bridge_error_table() {
    let f = handle_error(&NfscrsJniError::AttributeMissing(AttrId::Size));
    assert_eq!(f.category, HostCategory::InternalFailure);
    assert_eq!(f.message, "cannot fetch attribute");
    let f = handle_error(&NfscrsJniError::JNIError("boom".to_string()));
    assert_eq!(f.category, HostCategory::InternalFailure);
    assert_eq!(f.message, "boom");
    let f = handle_error(&NfscrsJniError::InvalidAddress("bad port".to_string()));
    assert_eq!(f.category, HostCategory::InvalidAddress);
    assert_eq!(f.message, "Invalid address: bad port");
    let f = handle_error(&NfscrsJniError::InvalidHandle);
    assert_eq!(f.category, HostCategory::InvalidArgument);
    let f = handle_error(&NfscrsJniError::CrossSessionHandle);
    assert_eq!(f.category, HostCategory::InvalidArgument);
    let f = handle_error(&NfscrsJniError::NFSCRSJNIError("not implemented".to_string()));
    assert_eq!(f.category, HostCategory::InternalFailure);
    assert_eq!(f.message, "not implemented");
}

#[test]
fn directory_snapshot() {
    let a = decode_attributes(&full_attrs(NFSFType4::NF4DIR)).unwrap();
    assert!(a.is_directory);
    assert!(!a.is_regular && !a.is_symlink && !a.is_other);
    assert_eq!(a.access_time_ms, 10_999);
    assert_eq!(a.modify_time_ms, 20_000);
    assert_eq!(a.create_time_ms, 30_001);
    assert_eq!(a.size, 10);
    assert_eq!(a.mode, 0o40755);
}

#[test]
fn special_file_is_other() {
    let a = decode_attributes(&full_attrs(NFSFType4::NF4FIFO)).unwrap();
    assert!(a.is_other && !a.is_regular && !a.is_directory && !a.is_symlink);
    let r = decode_attributes(&full_attrs(NFSFType4::NF4LNK)).unwrap();
    assert!(r.is_symlink && !r.is_other);
}

#[test]
fn missing_attribute_is_reported() {
    let mut fa = full_attrs(NFSFType4::NF4REG);
    fa.values.remove(4);
    assert!(matches!(
        decode_attributes(&fa),
        Err(NfscrsJniError::AttributeMissing(AttrId::Size))
    ));
    assert!(matches!(get_file_size(&fa), Err(NfscrsJniError::AttributeMissing(AttrId::Size))));
    assert!(matches!(
        get_file_size_from_attrs(&fa),
        Err(NfscrsJniError::AttributeMissing(AttrId::Size))
    ));
    let empty = FAttr4 { values: vec![] };
    assert!(matches!(
        get_filetype(&empty),
        Err(NfscrsJniError::AttributeMissing(AttrId::Type))
    ));
}

#[test]
fn first_value_of_an_attribute_wins() {
    let mut fa = full_attrs(NFSFType4::NF4REG);
    fa.values.push(FAttr4Type::Size(99));
    assert_eq!(get_file_size_from_attrs(&fa).unwrap(), 10);
}

#[test]
fn time_out_of_range_is_reported() {
    let mut fa = full_attrs(NFSFType4::NF4REG);
    fa.values[1] = FAttr4Type::TimeModify(t(i64::MAX, 0));
    assert!(matches!(
        decode_attributes(&fa),
        Err(NfscrsJniError::TimeOutOfRange(AttrId::TimeModify))
    ));
}

#[test]
fn open_option_bits() {
    let o = int_to_open_options(1);
    assert!(o.read && !o.write && !o.create && !o.truncate);
    let o = int_to_open_options(0b1110);
    assert!(!o.read && o.write && o.create && o.truncate);
    let o = int_to_open_options(0b10000);
    assert!(!o.read && !o.write && !o.create && !o.truncate);
}

#[test]
fn absolute_paths() {
    let p = AbsolutePath::try_from("/export/test.txt".to_string()).unwrap();
    assert_eq!(p.as_str(), "/export/test.txt");
    match AbsolutePath::try_from("export/test.txt".to_string()) {
        Err(NfscrsJniError::InvalidArgument(m)) => {
            assert_eq!(m, "not absolute path: export/test.txt")
        }
        _ => panic!("relative path accepted"),
    }
    assert!(AbsolutePath::try_from(String::new()).is_err());
}

#[test]
fn destroyed_handle_is_refused() {
    let mut reg: HandleRegistry<String> = HandleRegistry::new();
    let h = reg.create("session".to_string(), 0).unwrap();
    assert_ne!(h, 0);
    assert_eq!(reg.destroy(h).unwrap(), "session");
    assert!(matches!(reg.checkout(h), Err(NfscrsJniError::InvalidHandle)));
    assert!(matches!(reg.destroy(h), Err(NfscrsJniError::InvalidHandle)));
    assert!(matches!(reg.checkout(0), Err(NfscrsJniError::InvalidHandle)));
    let h2 = reg.create("other".to_string(), 0).unwrap();
    assert_ne!(h2, h);
}

#[test]
fn checked_out_handle_is_busy() {
    let mut reg: HandleRegistry<u32> = HandleRegistry::new();
    let h = reg.create(7, 0).unwrap();
    let v = reg.checkout(h).unwrap();
    assert_eq!(v, 7);
    assert!(matches!(reg.checkout(h), Err(NfscrsJniError::HandleBusy)));
    assert!(matches!(reg.destroy(h), Err(NfscrsJniError::HandleBusy)));
    reg.checkin(h, 8).unwrap();
    assert!(reg.checkin(h, 9).is_err());
    assert_eq!(reg.checkout(h).unwrap(), 8);
}

#[test]
fn cross_session_file_is_refused() {
    let mut files: HandleRegistry<u8> = HandleRegistry::new();
    let f = files.create(1, 41).unwrap();
    assert!(files.check_owner(f, 41).is_ok());
    assert!(matches!(files.check_owner(f, 42), Err(NfscrsJniError::CrossSessionHandle)));
    assert!(matches!(files.check_owner(f + 1, 41), Err(NfscrsJniError::InvalidHandle)));
}

#[test]
fn write_with_zero_limit_skips_engine() {
    assert_eq!(write_step(0), WriteStep::Done(0));
    assert_eq!(write_step(-5), WriteStep::Done(0));
    assert_eq!(write_step(i32::MIN), WriteStep::Done(0));
    assert_eq!(write_step(3), WriteStep::CallEngine(3));
    assert_eq!(write_file(2).unwrap(), 2);
    assert_eq!(write_file(4).unwrap(), 4);
    assert!(write_file(u32::MAX).is_err());
}

#[test]
fn staged_and_direct_bytes_agree() {
    let buf = [1u8, 2, 3, 4, 5];
    let staged = staged_copy(&buf, 3);
    assert_eq!(&staged[..], &buf[..3]);
    assert!(staged_copy(&buf, 0).is_empty());
}

#[test]
fn ten_byte_read_reports_eof() {
    let cap = read_capacity(4096).unwrap();
    let r = read_file(cap, vec![7u8; 10], true).unwrap();
    assert_eq!(r.count, 10);
    assert!(r.eof);
    assert_eq!(r.data, vec![7u8; 10]);
    assert!(read_file(4, vec![0u8; 5], false).is_err());
    assert!(read_capacity(-1).is_err());
}

#[test]
fn bitmap_reports_requested_attributes() {
    let b = build_request_bitmap(&vec![AttrId::Mode, AttrId::TimeModify]);
    assert!(b.requests(AttrId::Mode));
    assert!(b.requests(AttrId::TimeModify));
    assert!(!b.requests(AttrId::Size));
    assert!(!b.requests(AttrId::TimeAccess));
    assert_eq!(b, Bitmap4 { word0: 0, word1: 0x200002 });
    let empty = Bitmap4::new();
    assert!(!empty.requests(AttrId::Type));
}

#[test]
fn first_missing_attribute_is_reported() {
    let fa = FAttr4 {
        values: vec![FAttr4Type::Mode(0o644), FAttr4Type::TimeAccess(t(1, 0))],
    };
    assert!(matches!(
        decode_attributes(&fa),
        Err(NfscrsJniError::AttributeMissing(AttrId::Type))
    ));
    let mut fa = full_attrs(NFSFType4::NF4REG);
    fa.values[0] = FAttr4Type::TimeAccess(t(i64::MIN, 0));
    fa.values[2] = FAttr4Type::TimeCreate(t(i64::MAX, 0));
    assert!(matches!(
        decode_attributes(&fa),
        Err(NfscrsJniError::TimeOutOfRange(AttrId::TimeAccess))
    ));
}
