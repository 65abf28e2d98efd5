use cb_signer::reload::{reload, RestartNotice};

#[test]
fn unchanged_address_needs_no_restart() {
    assert_eq!(
        reload("127.0.0.1", 18550, "127.0.0.1", 18550),
        RestartNotice { host_changed: false, port_changed: false }
    );
}

#[test]
fn changed_host_and_port_are_told_apart() {
    assert_eq!(
        reload("127.0.0.1", 18550, "0.0.0.0", 18550),
        RestartNotice { host_changed: true, port_changed: false }
    );
    assert_eq!(
        reload("127.0.0.1", 18550, "127.0.0.1", 18551),
        RestartNotice { host_changed: false, port_changed: true }
    );
    assert_eq!(
        reload("127.0.0.1", 18550, "0.0.0.0", 1),
        RestartNotice { host_changed: true, port_changed: true }
    );
}
