//! Display-name canonicalization and socket-path tests.
//!
//! The resolver and the machine's hostname are injected, so the tests
//! stand in for them: the fake resolver qualifies `host` to
//! `host.local` unless the name already contains a dot, and leaves the
//! special name `nofq` unqualified; the fake system name is
//! `host.local`.

use sawfish_client::display::canonical_display;
use sawfish_client::display::canonical_host;
use sawfish_client::display::display_host;
use sawfish_client::display::get_display;
use sawfish_client::display::server_path;
use sawfish_client::ConnError;

/// What the original deployment's resolver would answer for these hosts.
fn fake_canonical_host_impl(host: &str) -> Option<String> {
    Some(if host == "nofq" {
        host.into()
    } else if host.contains('.') {
        host.to_lowercase()
    } else {
        host.to_lowercase() + ".local"
    })
}

fn fake_canonical(display: &str) -> String {
    let canon = display_host(display).and_then(|h| fake_canonical_host_impl(&h));
    canonical_display(display, Some("host.local"), canon.as_deref())
}

#[test]
fn test_canonical_dispaly() {
    for (display, canonical) in [
        ("", "host.local:0.0"),
        (":0", "host.local:0.0"),
        (":0.1", "host.local:0.1"),
        ("host:0", "host.local:0.0"),
        ("host.example.com:0", "host.example.com:0.0"),
        ("nofq:0", "nofq:0.0"),
        ("bogus", "bogus.local:0.0"),
    ] {
        assert_eq!(canonical, fake_canonical(display), "{display}");
    }
}

#[test]
fn test_qualified_host_kept() {
    // A fully-qualified host passes through with only the display and
    // screen parts filled in.
    assert_eq!("remote:1.2", canonical_display("remote:1.2", Some("host.local"), None));
}

#[test]
fn test_unix_prefix_means_local_host() {
    assert_eq!(None, display_host("unix:0"));
    assert_eq!("host.local:0.0", fake_canonical("unix:0"));
}

#[test]
fn test_display_host() {
    assert_eq!(None, display_host(":0"));
    assert_eq!(Some("remote".to_string()), display_host("remote:1"));
    assert_eq!(Some("bogus".to_string()), display_host("bogus"));
}

#[test]
fn test_canonical_host_lowercases() {
    // Would fail if the lowercasing handed its argument back unchanged.
    assert_eq!("host.example.com", canonical_host("HOST.Example.COM", None));
    assert_eq!("srv.example.net", canonical_host("ignored", Some("SRV.Example.NET")));
}

#[test]
fn test_get_display() {
    assert_eq!("given", get_display(Some("given"), Some("fromenv".to_string())).unwrap());
    assert_eq!("fromenv", get_display(None, Some("fromenv".to_string())).unwrap());
    assert!(matches!(get_display(Some(""), Some("fromenv".to_string())), Err(ConnError::NoDisplay)));
    assert!(matches!(get_display(None, Some("".to_string())), Err(ConnError::NoDisplay)));
    assert!(matches!(get_display(None, None), Err(ConnError::NoDisplay)));
}

#[test]
fn test_server_path() {
    let path = server_path(":0", Some("user"), Some("host.local"), None).unwrap();
    assert_eq!("/tmp/.sawfish-user/host.local:0.0", path);
    assert!(matches!(
        server_path(":0", None, Some("host.local"), None),
        Err(ConnError::NoLogname)
    ));
}
