use nntp_client::command::{decode, encode, NntpCommand};

#[test]
fn encode_capabilities() {
    let line = encode(&NntpCommand::Capabilities);
    assert_eq!(line, b"CAPABILITIES".to_vec());
}

#[test]
fn encode_quit() {
    let line = encode(&NntpCommand::Quit);
    assert_eq!(line, b"QUIT".to_vec());
}

#[test]
fn encode_group() {
    let line = encode(&NntpCommand::Group(b"alt.test".to_vec()));
    assert_eq!(line, b"GROUP alt.test".to_vec());
}

#[test]
fn encode_authinfo_user() {
    let line = encode(&NntpCommand::AuthInfoUser(b"alice".to_vec()));
    assert_eq!(line, b"AUTHINFO USER alice".to_vec());
}

#[test]
fn encode_authinfo_pass() {
    let line = encode(&NntpCommand::AuthInfoPass(b"hunter2".to_vec()));
    assert_eq!(line, b"AUTHINFO PASS hunter2".to_vec());
}

#[test]
fn round_trip_capabilities() {
    let line = encode(&NntpCommand::Capabilities);
    match decode(&line) {
        Some(NntpCommand::Capabilities) => {}
        other => panic!("decoded wrongly: {:?}", other),
    }
}

#[test]
fn round_trip_quit() {
    let line = encode(&NntpCommand::Quit);
    match decode(&line) {
        Some(NntpCommand::Quit) => {}
        other => panic!("decoded wrongly: {:?}", other),
    }
}

#[test]
fn round_trip_group() {
    let line = encode(&NntpCommand::Group(b"misc.news".to_vec()));
    match decode(&line) {
        Some(NntpCommand::Group(name)) => assert_eq!(name, b"misc.news".to_vec()),
        other => panic!("decoded wrongly: {:?}", other),
    }
}

#[test]
fn round_trip_authinfo_user() {
    let line = encode(&NntpCommand::AuthInfoUser(b"bob".to_vec()));
    match decode(&line) {
        Some(NntpCommand::AuthInfoUser(user)) => assert_eq!(user, b"bob".to_vec()),
        other => panic!("decoded wrongly: {:?}", other),
    }
}

#[test]
fn round_trip_authinfo_pass_with_space() {
    let line = encode(&NntpCommand::AuthInfoPass(b"pass with spaces".to_vec()));
    match decode(&line) {
        Some(NntpCommand::AuthInfoPass(pass)) => assert_eq!(pass, b"pass with spaces".to_vec()),
        other => panic!("decoded wrongly: {:?}", other),
    }
}

#[test]
fn round_trip_group_empty_name() {
    let line = encode(&NntpCommand::Group(Vec::new()));
    assert_eq!(line, b"GROUP ".to_vec());
    match decode(&line) {
        Some(NntpCommand::Group(name)) => assert_eq!(name, Vec::<u8>::new()),
        other => panic!("decoded wrongly: {:?}", other),
    }
}

#[test]
fn decode_unknown_line_is_none() {
    assert!(decode(&b"ARTICLE 300".to_vec()).is_none());
    assert!(decode(&b"CAPABILITIE".to_vec()).is_none());
    assert!(decode(&b"QUI".to_vec()).is_none());
    assert!(decode(&Vec::new()).is_none());
}
