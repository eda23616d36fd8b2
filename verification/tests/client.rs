use revsocks::client::{MuxEvent, ReverseProxyClient, SessionVerdict, magic_bytes, session_verdict};
use revsocks::config::Config;
use revsocks::creds::{Credential, bytes_eq, check_credentials};

#[test]
fn magic_prefix_bytes() {
    assert_eq!(magic_bytes(), vec![0x1b, 0xc3, 0xbd, 0x0f]);
}

#[test]
fn session_verdicts() {
    assert!(matches!(session_verdict(&MuxEvent::StreamAvailable), SessionVerdict::Dispatch));
    assert!(matches!(session_verdict(&MuxEvent::StreamError), SessionVerdict::Continue));
    assert!(matches!(session_verdict(&MuxEvent::Ended), SessionVerdict::Finished));
}

#[test]
fn client_keeps_its_configuration() {
    let client = ReverseProxyClient::new(Config {
        host: String::from("controller.example"),
        port: 8443,
        tls: true,
        tor: false,
    });
    let c = client.config();
    assert_eq!(c.host, "controller.example");
    assert_eq!(c.port, 8443);
    assert!(c.tls);
    assert!(!c.tor);
    assert_eq!(client.handshake_bytes(), vec![0x1b, 0xc3, 0xbd, 0x0f]);
}

#[test]
fn credential_equality_is_byte_exact() {
    assert!(bytes_eq(&b"alice".to_vec(), &b"alice".to_vec()));
    assert!(!bytes_eq(&b"alice".to_vec(), &b"alicE".to_vec()));
    assert!(!bytes_eq(&b"alice".to_vec(), &b"alic".to_vec()));
    assert!(bytes_eq(&Vec::new(), &Vec::new()));

    let table = vec![
        Credential { user: b"alice".to_vec(), pass: b"s3cret".to_vec() },
        Credential { user: b"bob".to_vec(), pass: b"hunter2".to_vec() },
    ];
    assert!(check_credentials(&table, &b"bob".to_vec(), &b"hunter2".to_vec()));
    assert!(check_credentials(&table, &b"alice".to_vec(), &b"s3cret".to_vec()));
    assert!(!check_credentials(&table, &b"alice".to_vec(), &b"hunter2".to_vec()));
    assert!(!check_credentials(&table, &b"mallory".to_vec(), &b"s3cret".to_vec()));
    assert!(!check_credentials(&Vec::new(), &b"alice".to_vec(), &b"s3cret".to_vec()));
}
