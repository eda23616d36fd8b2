use revsocks::wire::{AgentError, encode_reply, port_from_bytes, rep_code, select_method};

#[test]
fn reply_pdu_is_ten_fixed_bytes() {
    for rep in [0x00u8, 0x01, 0x05, 0x07, 0x08] {
        let r = encode_reply(rep);
        assert_eq!(r.len(), 10);
        assert_eq!(r, vec![0x05, rep, 0x00, 0x01, 0, 0, 0, 0, 0, 0]);
    }
}

#[test]
fn method_selection_prefers_user_pass() {
    assert_eq!(select_method(&vec![0x02], &vec![0x00, 0x02]), Some(0x02));
    assert_eq!(select_method(&vec![0x00], &vec![0x00, 0x02]), Some(0x00));
    assert_eq!(select_method(&vec![0x00], &vec![0x02]), None);
    assert_eq!(select_method(&vec![0x02], &vec![0x00, 0x01]), None);
    assert_eq!(select_method(&vec![0x00], &Vec::new()), None);
}

#[test]
fn error_to_reply_code_is_total() {
    assert_eq!(rep_code(&AgentError::Io), 0x01);
    assert_eq!(rep_code(&AgentError::Socks(0x07)), 0x07);
    assert_eq!(rep_code(&AgentError::Socks(0x00)), 0x00);
}

#[test]
fn port_bytes_are_big_endian() {
    assert_eq!(port_from_bytes(0x00, 0x50), 80);
    assert_eq!(port_from_bytes(0x00, 0x00), 0);
    assert_eq!(port_from_bytes(0xff, 0xff), 65535);
    assert_eq!(port_from_bytes(0x1f, 0x90), 8080);
}
