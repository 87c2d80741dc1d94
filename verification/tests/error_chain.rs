use dtx_core::error::Error;
use dtx_core::error::ErrorKind;

#[test]
fn root_error_has_a_chain_of_one() {
    let e = Error::new(ErrorKind::DeviceIo, String::from("device stopped answering"));
    assert_eq!(e.kind(), ErrorKind::DeviceIo);
    assert_eq!(e.message(), "device stopped answering");
    assert_eq!(e.chain_kinds(), vec![ErrorKind::DeviceIo]);
}

#[test]
fn wrapping_extends_the_causal_chain_outermost_first() {
    let root = Error::new(ErrorKind::Process, String::from("handler would not start"));
    let mid = Error::with(root, ErrorKind::Runtime, String::from("detach job failed"));
    let top = Error::with(mid, ErrorKind::BusService, String::from("status push failed"));
    assert_eq!(top.kind(), ErrorKind::BusService);
    assert_eq!(
        top.chain_kinds(),
        vec![ErrorKind::BusService, ErrorKind::Runtime, ErrorKind::Process]
    );
}
