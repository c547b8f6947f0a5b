use flipperzero::io::Error;
use flipperzero::path::PathBuf;
use flipperzero::sys;

#[test]
fn path_new_keeps_the_bytes() {
    let path = PathBuf::new(b"/ext/file.txt");
    assert_eq!(path.as_c_str(), b"/ext/file.txt");
}

#[test]
fn path_in_local_data() {
    let path = PathBuf::in_local_data(b"save.bin");
    assert_eq!(path.as_c_str(), b"/data/save.bin");
}

#[test]
fn path_in_local_assets() {
    let path = PathBuf::in_local_assets(b"icon.png");
    assert_eq!(path.as_c_str(), b"/assets/icon.png");
}

#[test]
fn empty_paths() {
    assert_eq!(PathBuf::new(b"").as_c_str(), b"");
    assert_eq!(PathBuf::in_local_data(b"").as_c_str(), b"/data/");
}

#[test]
fn io_error_to_sys() {
    assert_eq!(Error::NotReady.to_sys(), Some(sys::FS_Error(sys::FSE_NOT_READY)));
    assert_eq!(Error::AlreadyOpen.to_sys(), Some(sys::FS_Error(sys::FSE_ALREADY_OPEN)));
    assert_eq!(Error::WriteZero.to_sys(), None);
    let uncategorized = Error::from_sys(sys::FS_Error(42)).unwrap();
    assert_eq!(uncategorized.to_sys(), Some(sys::FS_Error(42)));
}

#[test]
fn io_error_from_sys() {
    assert_eq!(Error::from_sys(sys::FS_Error(sys::FSE_OK)), None);
    assert_eq!(Error::from_sys(sys::FS_Error(sys::FSE_DENIED)), Some(Error::Denied));
    assert_eq!(Error::from_sys(sys::FS_Error(sys::FSE_INVALID_NAME)), Some(Error::InvalidName));
    let uncategorized = Error::from_sys(sys::FS_Error(99)).unwrap();
    assert_eq!(uncategorized.to_sys(), Some(sys::FS_Error(99)));
    assert_ne!(uncategorized, Error::Internal);
}

#[test]
fn io_error_roundtrips() {
    for error in [
        Error::NotReady,
        Error::Exists,
        Error::NotExists,
        Error::InvalidParameter,
        Error::Denied,
        Error::InvalidName,
        Error::Internal,
        Error::NotImplemented,
        Error::AlreadyOpen,
    ] {
        assert_eq!(Error::from_sys(error.to_sys().unwrap()), Some(error));
    }
    for code in 1u8..=12 {
        let raw = sys::FS_Error(code);
        assert_eq!(Error::from_sys(raw).unwrap().to_sys(), Some(raw));
    }
}
