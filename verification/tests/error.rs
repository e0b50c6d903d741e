use power_monitor::error::Error;

#[test]
fn errors_serialize_to_their_display_string() {
    let err = Error::query("nope");
    assert_eq!(err.message(), "failed to query the system power state: nope");
    assert_eq!(
        Error::UnsupportedPlatform.message(),
        "power monitoring is not supported on this platform"
    );
    assert_eq!(
        Error::listener("x").message(),
        "failed to initialize the power event listeners: x"
    );
}
