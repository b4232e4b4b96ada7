//! Property-protocol transport tests.
//!
//! The machines own no windowing connection: the tests play both the
//! windowing server and the driver, feeding events and property data in
//! and checking every command that comes out.

use sawfish_client::property::begin_discovery;
use sawfish_client::property::PropCmd;
use sawfish_client::property::PropertyEval;
use sawfish_client::property::Session;
use sawfish_client::property::ATOM_CARDINAL;
use sawfish_client::property::ATOM_STRING;
use sawfish_client::property::INITIAL_LONG_LENGTH;
use sawfish_client::property::PROTOCOL_X11_VERSION;
use sawfish_client::property::WINDOW_FORMAT;
use sawfish_client::ConnError;
use sawfish_client::EvalError;

#[test]
fn test_protocol_names() {
    assert_eq!("_SAWFISH_REQUEST_WIN", sawfish_client::property::request_win_atom_name());
    assert_eq!("_SAWFISH_REQUEST", sawfish_client::property::request_atom_name());
}

#[test]
fn test_discovery_succeeds() {
    let disc = begin_discovery(&vec![100u32, 200], 1).unwrap();
    assert_eq!(200, disc.root);
    let with_server = disc.server_atom(77).unwrap();
    assert_eq!(77, with_server.req_win_atom);
    let ready = with_server.comm_atom(88);
    let discovered = ready
        .request_win_property(ATOM_CARDINAL, WINDOW_FORMAT, 1, &vec![4242u32])
        .unwrap();
    assert_eq!(4242, discovered.req_win);
    assert_eq!(88, discovered.property);
    let session = discovered.with_portal(555);
    assert_eq!(4242, session.req_win);
    assert_eq!(555, session.portal);
    assert_eq!(88, session.property);
    // Tearing the session down destroys exactly the portal it was
    // created with.
    assert_eq!(555, session.close());
}

#[test]
fn test_discovery_bad_screen() {
    assert!(matches!(
        begin_discovery(&vec![100u32], 1),
        Err(ConnError::BadScreen(1))
    ));
    assert!(matches!(
        begin_discovery(&vec![100u32], -1),
        Err(ConnError::BadScreen(-1))
    ));
}

#[test]
fn test_discovery_no_server_atom() {
    // The discovery atom does not exist: no server is listening.
    let disc = begin_discovery(&vec![100u32], 0).unwrap();
    assert!(matches!(disc.server_atom(0), Err(ConnError::ServerNotFound)));
}

#[test]
fn test_discovery_property_absent() {
    // The root-window property is absent (the reply carries no value):
    // open fails with ServerNotFound.  No portal window exists at this
    // point — a session, and with it a portal, is only ever built from
    // a fully validated discovery.
    let ready = begin_discovery(&vec![100u32], 0)
        .unwrap()
        .server_atom(77)
        .unwrap()
        .comm_atom(88);
    assert!(matches!(
        ready.request_win_property(0, 0, 0, &Vec::new()),
        Err(ConnError::ServerNotFound)
    ));
}

#[test]
fn test_discovery_property_malformed() {
    let ready = begin_discovery(&vec![100u32], 0)
        .unwrap()
        .server_atom(77)
        .unwrap()
        .comm_atom(88);
    // Wrong type.
    assert!(matches!(
        ready.request_win_property(ATOM_STRING, WINDOW_FORMAT, 1, &vec![4242u32]),
        Err(ConnError::ServerNotFound)
    ));
    // Wrong format.
    assert!(matches!(
        ready.request_win_property(ATOM_CARDINAL, 8, 1, &vec![4242u32]),
        Err(ConnError::ServerNotFound)
    ));
    // Wrong length.
    assert!(matches!(
        ready.request_win_property(ATOM_CARDINAL, WINDOW_FORMAT, 2, &vec![1u32, 2]),
        Err(ConnError::ServerNotFound)
    ));
}

fn test_session() -> Session {
    Session { req_win: 42, portal: 7, property: 9 }
}

/// Drives a synchronous request up to the first property read.
fn drive_to_read(form: &[u8]) -> PropertyEval {
    let (m, cmd) = PropertyEval::begin(&test_session(), form, false);
    match cmd {
        PropCmd::ChangeProperty { window, property, typ, data } => {
            assert_eq!(7, window);
            assert_eq!(9, property);
            assert_eq!(ATOM_STRING, typ);
            assert_eq!(form.to_vec(), data);
        }
        _ => panic!("expected ChangeProperty"),
    }
    let (m, cmd) = m.property_set();
    assert!(matches!(cmd, PropCmd::AwaitNotify));
    // Unrelated notifications are ignored and waiting continues.
    let (m, cmd) = m.notify(1234, 9);
    assert!(matches!(cmd, PropCmd::AwaitNotify));
    let (m, cmd) = m.notify(7, 5);
    assert!(matches!(cmd, PropCmd::AwaitNotify));
    // Our own write's notification advances to sending the request.
    let (m, cmd) = m.notify(7, 9);
    match cmd {
        PropCmd::SendMessage { window, atom, version, portal, property, sync } => {
            assert_eq!(42, window);
            assert_eq!(9, atom);
            assert_eq!(PROTOCOL_X11_VERSION, version);
            assert_eq!(7, portal);
            assert_eq!(9, property);
            assert_eq!(1, sync);
        }
        _ => panic!("expected SendMessage"),
    }
    let (m, cmd) = m.message_sent();
    assert!(matches!(cmd, PropCmd::AwaitNotify));
    // The server's reply notification starts the incremental read.
    let (m, cmd) = m.notify(7, 9);
    match cmd {
        PropCmd::GetProperty { window, property, typ, long_offset, long_length } => {
            assert_eq!(7, window);
            assert_eq!(9, property);
            assert_eq!(ATOM_STRING, typ);
            assert_eq!(0, long_offset);
            assert_eq!(INITIAL_LONG_LENGTH, long_length);
        }
        _ => panic!("expected GetProperty"),
    }
    m
}

#[test]
fn test_property_eval_success() {
    let m = drive_to_read(b"(form)");
    let (_, cmd) = m.property_data(ATOM_STRING, 8, 0, vec![1, b'o', b'k']);
    match cmd {
        PropCmd::Finish(outcome) => assert_eq!(Ok(b"ok".to_vec()), outcome.unwrap()),
        _ => panic!("expected Finish"),
    }
}

#[test]
fn test_property_eval_failure_status() {
    let m = drive_to_read(b"(form)");
    let (_, cmd) = m.property_data(ATOM_STRING, 8, 0, vec![0, b'o', b'k']);
    match cmd {
        PropCmd::Finish(outcome) => assert_eq!(Err(b"ok".to_vec()), outcome.unwrap()),
        _ => panic!("expected Finish"),
    }
}

#[test]
fn test_property_eval_empty_is_no_response() {
    let m = drive_to_read(b"(form)");
    let (_, cmd) = m.property_data(ATOM_STRING, 8, 0, Vec::new());
    assert!(matches!(cmd, PropCmd::Finish(Err(EvalError::NoResponse))));
}

#[test]
fn test_property_eval_bad_response() {
    let m = drive_to_read(b"(form)");
    let (_, cmd) = m.property_data(ATOM_CARDINAL, 8, 0, Vec::new());
    assert!(matches!(
        cmd,
        PropCmd::Finish(Err(EvalError::BadResponse { window: 7, atom: 9, typ: ATOM_CARDINAL, format: 8 }))
    ));
    let m = drive_to_read(b"(form)");
    let (_, cmd) = m.property_data(ATOM_STRING, 32, 0, Vec::new());
    assert!(matches!(
        cmd,
        PropCmd::Finish(Err(EvalError::BadResponse { window: 7, atom: 9, typ: ATOM_STRING, format: 32 }))
    ));
}

#[test]
fn test_property_eval_fire_and_forget() {
    let (m, _) = PropertyEval::begin(&test_session(), b"(form)", true);
    let (m, _) = m.property_set();
    let (m, cmd) = m.notify(7, 9);
    match cmd {
        PropCmd::SendMessage { sync, .. } => assert_eq!(0, sync),
        _ => panic!("expected SendMessage"),
    }
    // After the message is sent the connection is only flushed: no
    // reply is awaited and nothing is read.
    let (m, cmd) = m.message_sent();
    assert!(matches!(cmd, PropCmd::Flush));
    let (_, cmd) = m.flushed();
    match cmd {
        PropCmd::Finish(outcome) => assert_eq!(Ok(Vec::new()), outcome.unwrap()),
        _ => panic!("expected Finish"),
    }
}

/// What a read of the reply property returns when the property holds
/// `value`: the first `4 * long_length` bytes and the count left over.
fn property_reply(value: &[u8], long_length: u32) -> (Vec<u8>, u32) {
    let cap = (4 * long_length as usize).min(value.len());
    (value[..cap].to_vec(), (value.len() - cap) as u32)
}

#[test]
fn test_property_eval_incremental_read() {
    // A 100-byte property value exceeds the 64 bytes of the initial
    // window: the transport must re-read with a grown window and
    // return the complete payload with no truncation and no
    // duplication.
    let mut value = vec![1u8];
    for i in 0..99u8 {
        value.push(i);
    }
    let mut m = drive_to_read(b"(form)");
    let mut long_length: u32 = INITIAL_LONG_LENGTH;
    let mut rounds: usize = 0;
    loop {
        rounds += 1;
        let (data, after) = property_reply(&value, long_length);
        let (next, cmd) = m.property_data(ATOM_STRING, 8, after, data);
        m = next;
        match cmd {
            PropCmd::GetProperty { long_offset, long_length: grown, .. } => {
                assert_eq!(0, long_offset);
                assert!(grown > long_length, "the window must grow");
                long_length = grown;
            }
            PropCmd::Finish(outcome) => {
                assert_eq!(Ok(value[1..].to_vec()), outcome.unwrap());
                break;
            }
            _ => panic!("expected GetProperty or Finish"),
        }
        assert!(rounds < 10, "the read must converge");
    }
    // 36 bytes were left after the first read; the grown window is
    // 16 + 36/4 + 1 = 26 units (104 bytes), so the second read is the
    // last.
    assert_eq!(2, rounds);
    assert_eq!(26, long_length);
}
