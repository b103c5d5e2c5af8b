use nfs4c_native::bridge::Bridge;
use nfs4c_native::attrs::{FAttr4, FAttr4Type, NFSFType4};
use nfs4c_native::error::{handle_error, HostCategory, NativeError, NfscrsJniError};
use nfs4c_native::ops::{decode_attributes, int_to_open_options, read_file, write_step, AbsolutePath, WriteStep};
use nfs4c_native::time::NfsTime;

#[test]
fn file_belongs_to_its_session() {
    let mut b: Bridge<&str, u32> = Bridge::new();
    let s1 = b.add_session("one").unwrap();
    let s2 = b.add_session("two").unwrap();
    assert_ne!(s1, s2);
    let f = b.add_file(s1, 10).unwrap();
    assert!(matches!(b.checkout_file(s2, f), Err(NfscrsJniError::CrossSessionHandle)));
    let v = b.checkout_file(s1, f).unwrap();
    assert_eq!(v, 10);
    assert!(matches!(b.close_file(s1, f), Err(NfscrsJniError::HandleBusy)));
    b.files.checkin(f, v).unwrap();
    assert_eq!(b.close_file(s1, f).unwrap(), 10);
    assert!(matches!(b.close_file(s1, f), Err(NfscrsJniError::InvalidHandle)));
    assert!(matches!(b.checkout_file(s1, f), Err(NfscrsJniError::InvalidHandle)));
}

#[test]
fn file_needs_a_session() {
    let mut b: Bridge<u8, u8> = Bridge::new();
    assert!(matches!(b.add_file(0, 1), Err(NfscrsJniError::InvalidHandle)));
    assert!(matches!(b.add_file(12345, 1), Err(NfscrsJniError::InvalidHandle)));
}

#[test]
fn reused_slot_gets_a_new_handle() {
    let mut b: Bridge<u8, u8> = Bridge::new();
    let s = b.add_session(1).unwrap();
    let f1 = b.add_file(s, 1).unwrap();
    assert_eq!(b.close_file(s, f1).unwrap(), 1);
    let f2 = b.add_file(s, 2).unwrap();
    assert_ne!(f1, f2);
    assert!(matches!(b.checkout_file(s, f1), Err(NfscrsJniError::InvalidHandle)));
    assert_eq!(b.checkout_file(s, f2).unwrap(), 2);
}

#[test]
fn session_file_scenario() {
    let refused = NfscrsJniError::NFSCRSError(NativeError::Connection("refused".to_string()));
    assert_eq!(handle_error(&refused).category, HostCategory::ConnectFailure);

    let mut b: Bridge<&str, &str> = Bridge::new();
    let s = b.add_session("127.0.0.1:2049").unwrap();
    assert!(AbsolutePath::try_from("/export/test.txt".to_string()).is_ok());
    let o = int_to_open_options(1);
    assert!(o.read && !o.write);
    let f = b.add_file(s, "/export/test.txt").unwrap();
    assert_ne!(f, 0);

    let r = read_file(4096, vec![b'a'; 10], true).unwrap();
    assert_eq!((r.count, r.eof), (10, true));
    assert_eq!(write_step(0), WriteStep::Done(0));

    let t = NfsTime { seconds: 1, nseconds: 0 };
    let dir = FAttr4 {
        values: vec![
            FAttr4Type::Type(NFSFType4::NF4DIR),
            FAttr4Type::Size(4096),
            FAttr4Type::Mode(0o755),
            FAttr4Type::TimeAccess(t),
            FAttr4Type::TimeModify(t),
            FAttr4Type::TimeCreate(t),
        ],
    };
    let a = decode_attributes(&dir).unwrap();
    assert!(a.is_directory && !a.is_regular && !a.is_symlink && !a.is_other);
    assert_eq!(b.close_file(s, f).unwrap(), "/export/test.txt");
}
