use nvn_research::{bytes_equal, is_device_initialize, Resolution, Resolver};

#[test]
fn device_initialize_is_hooked_once() {
    let mut r = Resolver::new();
    let name = b"nvnDeviceInitialize";
    assert_eq!(r.bootstrap_loader(name), Resolution::ResolveAndHook);
    assert!(r.device_initialize_resolved(0x1234));
    assert_eq!(r.bootstrap_loader(name), Resolution::Cached(0x1234));
    assert!(!r.device_initialize_resolved(0x5678));
    assert_eq!(r.bootstrap_loader(name), Resolution::Cached(0x1234));
}

#[test]
fn null_pointer_is_not_hooked() {
    let mut r = Resolver::new();
    assert!(!r.device_initialize_resolved(0));
    assert_eq!(r.bootstrap_loader(b"nvnDeviceInitialize"), Resolution::ResolveAndHook);
}

#[test]
fn other_names_pass_through() {
    let r = Resolver::new();
    assert_eq!(r.bootstrap_loader(b"nvnQueueSubmitCommands"), Resolution::PassThrough);
    assert_eq!(r.bootstrap_loader(b"nvnDeviceInitializ"), Resolution::PassThrough);
    assert_eq!(r.bootstrap_loader(b"nvnDeviceInitializeX"), Resolution::PassThrough);
    assert_eq!(r.bootstrap_loader(b""), Resolution::PassThrough);
}

#[test]
fn byte_comparison() {
    assert!(bytes_equal(b"abc", b"abc"));
    assert!(!bytes_equal(b"abc", b"abd"));
    assert!(!bytes_equal(b"abc", b"ab"));
    assert!(bytes_equal(b"", b""));
    assert!(is_device_initialize(b"nvnDeviceInitialize"));
    assert!(!is_device_initialize(b"nvndeviceinitialize"));
}
