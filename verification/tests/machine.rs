use revsocks::creds::Credential;
use revsocks::machine::{Action, Event, SocksServer, Target, TargetAddr};

fn cred(user: &[u8], pass: &[u8]) -> Credential {
    Credential { user: user.to_vec(), pass: pass.to_vec() }
}

fn read_count(a: &Action) -> usize {
    match a {
        Action::Read { count } => *count,
        _ => panic!("expected a read action"),
    }
}

fn dial_target(a: Action) -> (Target, u64) {
    match a {
        Action::Dial { target, timeout_ms } => (target, timeout_ms),
        _ => panic!("expected a dial action"),
    }
}

#[test]
fn s1_v4_connect_happy_path() {
    let mut m = SocksServer::new(Vec::new(), None);
    assert_eq!(read_count(&m.first_action()), 2);

    let s = m.step(Event::Bytes(vec![0x05, 0x01]));
    assert!(s.write.is_empty());
    assert_eq!(read_count(&s.action), 1);

    let s = m.step(Event::Bytes(vec![0x00]));
    assert_eq!(s.write, vec![0x05, 0x00]);
    assert_eq!(read_count(&s.action), 4);

    let s = m.step(Event::Bytes(vec![0x05, 0x01, 0x00, 0x01]));
    assert!(s.write.is_empty());
    assert_eq!(read_count(&s.action), 4);

    let s = m.step(Event::Bytes(vec![0x7f, 0x00, 0x00, 0x01]));
    assert!(s.write.is_empty());
    assert_eq!(read_count(&s.action), 2);

    let s = m.step(Event::Bytes(vec![0x00, 0x50]));
    assert!(s.write.is_empty());
    let (target, timeout_ms) = dial_target(s.action);
    assert_eq!(timeout_ms, 500);
    assert_eq!(target.port, 80);
    match target.addr {
        TargetAddr::V4 { octets } => assert_eq!(octets, vec![127, 0, 0, 1]),
        _ => panic!("expected a v4 target"),
    }

    let s = m.step(Event::Dialed(true));
    assert_eq!(s.write, vec![0x05, 0x00, 0x00, 0x01, 0, 0, 0, 0, 0, 0]);
    assert!(matches!(s.action, Action::Splice));
    assert!(m.is_tunnel());
    assert!(!m.is_closed());
}

#[test]
fn s2_domain_connect() {
    let mut m = SocksServer::new(Vec::new(), None);
    m.step(Event::Bytes(vec![0x05, 0x01]));
    let s = m.step(Event::Bytes(vec![0x00]));
    assert_eq!(s.write, vec![0x05, 0x00]);

    // 05 01 00 03 09 "localhost" 00 50
    let s = m.step(Event::Bytes(vec![0x05, 0x01, 0x00, 0x03]));
    assert_eq!(read_count(&s.action), 1);
    let s = m.step(Event::Bytes(vec![0x09]));
    assert_eq!(read_count(&s.action), 9);
    let s = m.step(Event::Bytes(b"localhost".to_vec()));
    assert_eq!(read_count(&s.action), 2);
    let s = m.step(Event::Bytes(vec![0x00, 0x50]));
    let (target, _) = dial_target(s.action);
    assert_eq!(target.port, 80);
    match target.addr {
        TargetAddr::Name { name } => assert_eq!(name, b"localhost".to_vec()),
        _ => panic!("expected a domain target"),
    }

    let s = m.step(Event::Dialed(true));
    assert_eq!(s.write, vec![0x05, 0x00, 0x00, 0x01, 0, 0, 0, 0, 0, 0]);
    assert!(matches!(s.action, Action::Splice));
}

#[test]
fn s3_udp_rejected_and_session_stays_open() {
    let mut bad = SocksServer::new(Vec::new(), None);
    bad.step(Event::Bytes(vec![0x05, 0x01]));
    bad.step(Event::Bytes(vec![0x00]));
    let s = bad.step(Event::Bytes(vec![0x05, 0x03, 0x00, 0x01]));
    // Command not supported: reply rep=0x07, never a success reply.
    assert_eq!(s.write, vec![0x05, 0x07, 0x00, 0x01, 0, 0, 0, 0, 0, 0]);
    assert!(matches!(s.action, Action::Stop));
    assert!(bad.is_closed());

    // An independent stream of the same session still completes.
    let mut ok = SocksServer::new(Vec::new(), None);
    ok.step(Event::Bytes(vec![0x05, 0x01]));
    ok.step(Event::Bytes(vec![0x00]));
    ok.step(Event::Bytes(vec![0x05, 0x01, 0x00, 0x01]));
    ok.step(Event::Bytes(vec![10, 0, 0, 7]));
    ok.step(Event::Bytes(vec![0x1f, 0x90]));
    let s = ok.step(Event::Dialed(true));
    assert_eq!(s.write[1], 0x00);
    assert!(ok.is_tunnel());
}

#[test]
fn s4_auth_failure() {
    let mut m = SocksServer::new(vec![cred(b"alice", b"s3cret")], None);
    let s = m.step(Event::Bytes(vec![0x05, 0x01]));
    assert_eq!(read_count(&s.action), 1);
    let s = m.step(Event::Bytes(vec![0x02]));
    assert_eq!(s.write, vec![0x05, 0x02]);
    assert_eq!(read_count(&s.action), 2);

    let s = m.step(Event::Bytes(vec![0x01, 0x03]));
    assert_eq!(read_count(&s.action), 3);
    let s = m.step(Event::Bytes(b"bob".to_vec()));
    assert_eq!(read_count(&s.action), 1);
    let s = m.step(Event::Bytes(vec![0x03]));
    assert_eq!(read_count(&s.action), 3);
    let s = m.step(Event::Bytes(b"foo".to_vec()));
    assert_eq!(s.write, vec![0x01, 0x01]);
    assert!(matches!(s.action, Action::Stop));
    assert!(m.is_closed());
}

#[test]
fn s5_wrong_version_closes_silently() {
    let mut m = SocksServer::new(Vec::new(), None);
    let s = m.step(Event::Bytes(vec![0x04, 0x01]));
    assert!(s.write.is_empty());
    assert!(matches!(s.action, Action::Stop));
    assert!(m.is_closed());
}

#[test]
fn s6_connect_timeout_replies_refused() {
    let mut m = SocksServer::new(Vec::new(), None);
    m.step(Event::Bytes(vec![0x05, 0x01]));
    m.step(Event::Bytes(vec![0x00]));
    m.step(Event::Bytes(vec![0x05, 0x01, 0x00, 0x01]));
    m.step(Event::Bytes(vec![10, 255, 255, 1]));
    let s = m.step(Event::Bytes(vec![0x00, 0x01]));
    let (_, timeout_ms) = dial_target(s.action);
    assert_eq!(timeout_ms, 500);
    let s = m.step(Event::Dialed(false));
    assert_eq!(s.write, vec![0x05, 0x05, 0x00, 0x01, 0, 0, 0, 0, 0, 0]);
    assert!(matches!(s.action, Action::Stop));
    assert!(m.is_closed());
}

#[test]
fn auth_success_reaches_request() {
    let mut m = SocksServer::new(vec![cred(b"alice", b"s3cret")], None);
    m.step(Event::Bytes(vec![0x05, 0x01]));
    m.step(Event::Bytes(vec![0x02]));
    m.step(Event::Bytes(vec![0x01, 0x05]));
    m.step(Event::Bytes(b"alice".to_vec()));
    m.step(Event::Bytes(vec![0x06]));
    let s = m.step(Event::Bytes(b"s3cret".to_vec()));
    assert_eq!(s.write, vec![0x01, 0x00]);
    assert_eq!(read_count(&s.action), 4);
    assert!(!m.is_closed());
}

#[test]
fn method_preference_with_credentials() {
    let mut m = SocksServer::new(vec![cred(b"alice", b"s3cret")], None);
    m.step(Event::Bytes(vec![0x05, 0x02]));
    let s = m.step(Event::Bytes(vec![0x00, 0x02]));
    assert_eq!(s.write, vec![0x05, 0x02]);
}

#[test]
fn method_preference_without_credentials() {
    let mut m = SocksServer::new(Vec::new(), None);
    m.step(Event::Bytes(vec![0x05, 0x02]));
    let s = m.step(Event::Bytes(vec![0x00, 0x02]));
    assert_eq!(s.write, vec![0x05, 0x00]);
}

#[test]
fn no_acceptable_method_replies_ff() {
    let mut m = SocksServer::new(Vec::new(), None);
    m.step(Event::Bytes(vec![0x05, 0x01]));
    let s = m.step(Event::Bytes(vec![0x01]));
    assert_eq!(s.write, vec![0x05, 0xff]);
    assert!(matches!(s.action, Action::Stop));
    assert!(m.is_closed());
}

#[test]
fn empty_method_list_replies_ff() {
    let mut m = SocksServer::new(Vec::new(), None);
    let s = m.step(Event::Bytes(vec![0x05, 0x00]));
    assert_eq!(read_count(&s.action), 0);
    let s = m.step(Event::Bytes(Vec::new()));
    assert_eq!(s.write, vec![0x05, 0xff]);
    assert!(m.is_closed());
}

#[test]
fn auth_version_mismatch_closes_silently() {
    let mut m = SocksServer::new(vec![cred(b"alice", b"s3cret")], None);
    m.step(Event::Bytes(vec![0x05, 0x01]));
    m.step(Event::Bytes(vec![0x02]));
    let s = m.step(Event::Bytes(vec![0x02, 0x05]));
    assert!(s.write.is_empty());
    assert!(matches!(s.action, Action::Stop));
    assert!(m.is_closed());
}

#[test]
fn bind_command_replies_not_supported() {
    let mut m = SocksServer::new(Vec::new(), None);
    m.step(Event::Bytes(vec![0x05, 0x01]));
    m.step(Event::Bytes(vec![0x00]));
    let s = m.step(Event::Bytes(vec![0x05, 0x02, 0x00, 0x01]));
    assert_eq!(s.write, vec![0x05, 0x07, 0x00, 0x01, 0, 0, 0, 0, 0, 0]);
    assert!(m.is_closed());
}

#[test]
fn unknown_command_closes_silently() {
    let mut m = SocksServer::new(Vec::new(), None);
    m.step(Event::Bytes(vec![0x05, 0x01]));
    m.step(Event::Bytes(vec![0x00]));
    let s = m.step(Event::Bytes(vec![0x05, 0x09, 0x00, 0x01]));
    assert!(s.write.is_empty());
    assert!(m.is_closed());
}

#[test]
fn unknown_address_type_replies_not_supported() {
    let mut m = SocksServer::new(Vec::new(), None);
    m.step(Event::Bytes(vec![0x05, 0x01]));
    m.step(Event::Bytes(vec![0x00]));
    let s = m.step(Event::Bytes(vec![0x05, 0x01, 0x00, 0x02]));
    assert_eq!(s.write, vec![0x05, 0x08, 0x00, 0x01, 0, 0, 0, 0, 0, 0]);
    assert!(m.is_closed());
}

#[test]
fn v6_connect_flow() {
    let mut m = SocksServer::new(Vec::new(), None);
    m.step(Event::Bytes(vec![0x05, 0x01]));
    m.step(Event::Bytes(vec![0x00]));
    let s = m.step(Event::Bytes(vec![0x05, 0x01, 0x00, 0x04]));
    assert_eq!(read_count(&s.action), 16);
    let mut sixteen = vec![0u8; 16];
    sixteen[15] = 1;
    let s = m.step(Event::Bytes(sixteen.clone()));
    assert_eq!(read_count(&s.action), 2);
    let s = m.step(Event::Bytes(vec![0xff, 0xff]));
    let (target, _) = dial_target(s.action);
    assert_eq!(target.port, 65535);
    match target.addr {
        TargetAddr::V6 { octets } => assert_eq!(octets, sixteen),
        _ => panic!("expected a v6 target"),
    }
}

#[test]
fn configured_timeout_is_handed_to_dial() {
    let mut m = SocksServer::new(Vec::new(), Some(1250));
    assert_eq!(m.dial_timeout_ms(), 1250);
    m.step(Event::Bytes(vec![0x05, 0x01]));
    m.step(Event::Bytes(vec![0x00]));
    m.step(Event::Bytes(vec![0x05, 0x01, 0x00, 0x01]));
    m.step(Event::Bytes(vec![192, 168, 0, 1]));
    let s = m.step(Event::Bytes(vec![0x00, 0x16]));
    let (target, timeout_ms) = dial_target(s.action);
    assert_eq!(timeout_ms, 1250);
    assert_eq!(target.port, 22);
}

#[test]
fn malformed_stream_does_not_disturb_another() {
    // One stream is fed garbage mid-handshake while another makes progress:
    // the machines share nothing, so the well-behaved one is unaffected.
    let mut a = SocksServer::new(Vec::new(), None);
    let mut b = SocksServer::new(Vec::new(), None);
    a.step(Event::Bytes(vec![0x05, 0x01]));
    b.step(Event::Bytes(vec![0x05, 0x01]));
    let s = b.step(Event::Bytes(vec![0x77]));
    assert_eq!(s.write, vec![0x05, 0xff]);
    assert!(b.is_closed());
    let s = a.step(Event::Bytes(vec![0x00]));
    assert_eq!(s.write, vec![0x05, 0x00]);
    a.step(Event::Bytes(vec![0x05, 0x01, 0x00, 0x01]));
    a.step(Event::Bytes(vec![127, 0, 0, 1]));
    a.step(Event::Bytes(vec![0x00, 0x50]));
    let s = a.step(Event::Dialed(true));
    assert_eq!(s.write[1], 0x00);
    assert!(a.is_tunnel());
}
