use nntp_client::client::{ClientConfig, NntpClient, SessionState, TlsConfig};
use nntp_client::command::NntpCommand;
use nntp_client::error::NntpError;
use nntp_client::parser::parse_response;
use nntp_client::response::RawResponse;
use nntp_client::response_code::{Kind, ResponseCode};

fn response(raw: &[&[u8]]) -> RawResponse {
    let lines: Vec<Vec<u8>> = raw.iter().map(|l| l.to_vec()).collect();
    let (resp, used) = parse_response(&lines).unwrap();
    assert_eq!(used, lines.len());
    resp
}

fn authed_config() -> ClientConfig {
    ClientConfig::new().authinfo_user_pass(b"alice".to_vec(), b"secret".to_vec())
}

#[test]
fn auth_two_step_success_authenticates() {
    let mut client = NntpClient::new(authed_config());
    assert_eq!(client.state(), SessionState::Connected);

    let user_cmd = client.auth_user_command();
    match user_cmd {
        NntpCommand::AuthInfoUser(user) => assert_eq!(user, b"alice".to_vec()),
        other => panic!("wrong command: {:?}", other),
    }

    let pass_cmd = client
        .auth_user_reply(response(&[b"381 password required"]))
        .unwrap();
    assert_eq!(client.state(), SessionState::AuthUserAccepted);
    match pass_cmd {
        NntpCommand::AuthInfoPass(pass) => assert_eq!(pass, b"secret".to_vec()),
        other => panic!("wrong command: {:?}", other),
    }

    client
        .auth_pass_reply(response(&[b"281 authentication accepted"]))
        .unwrap();
    assert_eq!(client.state(), SessionState::Authenticated);
}

#[test]
fn auth_user_rejected_sends_no_pass() {
    let mut client = NntpClient::new(authed_config());
    let r = client.auth_user_reply(response(&[b"502 begone"]));
    match r {
        Err(NntpError::Failure { code, .. }) => {
            assert_eq!(code, ResponseCode::Known(Kind::ServicePermanentlyUnavailable));
        }
        other => panic!("expected failure, got {:?}", other),
    }
    // no AUTHINFO PASS command was produced and the session is unauthenticated
    assert_eq!(client.state(), SessionState::Connected);
}

#[test]
fn auth_pass_rejected_leaves_unauthenticated() {
    let mut client = NntpClient::new(authed_config());
    client
        .auth_user_reply(response(&[b"381 password required"]))
        .unwrap();
    let r = client.auth_pass_reply(response(&[b"481 rejected"]));
    match r {
        Err(NntpError::Failure { code, .. }) => {
            assert_eq!(code, ResponseCode::Known(Kind::AuthenticationRejected));
        }
        other => panic!("expected failure, got {:?}", other),
    }
    assert_eq!(client.state(), SessionState::Connected);
}

#[test]
fn set_group_selects_and_records_the_group() {
    let mut client = NntpClient::new(ClientConfig::new());
    let resp = response(&[b"211 1234 3000234 3002322 alt.test", b"."]);
    let group = client.set_group(resp).unwrap();
    assert_eq!(group.name, b"alt.test".to_vec());
    assert_eq!(group.number, 1234);
    assert_eq!(group.low, 3000234);
    assert_eq!(group.high, 3002322);
    let current = client.group().unwrap();
    assert_eq!(current.name, b"alt.test".to_vec());
    assert_eq!(current.number, 1234);
    assert_eq!(current.low, 3000234);
    assert_eq!(current.high, 3002322);
}

#[test]
fn set_group_missing_group_is_not_found_and_state_unchanged() {
    let mut client = NntpClient::new(ClientConfig::new());
    let first = response(&[b"211 6 1 6 misc.test", b"."]);
    client.set_group(first).unwrap();

    let r = client.set_group(response(&[b"411 missing.group is no newsgroup"]));
    match r {
        Err(NntpError::GroupNotFound(resp)) => {
            assert_eq!(resp.code(), ResponseCode::Known(Kind::NoSuchNewsgroup));
        }
        other => panic!("expected not-found, got {:?}", other),
    }
    // the current group is unchanged from before the call
    assert_eq!(client.group().unwrap().name, b"misc.test".to_vec());
}

#[test]
fn set_group_unexpected_code_is_failure() {
    let mut client = NntpClient::new(ClientConfig::new());
    let r = client.set_group(response(&[b"400 temporarily unavailable"]));
    match r {
        Err(NntpError::Failure { code, msg, .. }) => {
            assert_eq!(code, ResponseCode::Known(Kind::ServiceTemporarilyUnavailable));
            assert_eq!(msg.unwrap(), b"400 temporarily unavailable".to_vec());
        }
        other => panic!("expected failure, got {:?}", other),
    }
    assert!(client.group().is_none());
}

#[test]
fn set_group_malformed_counts_is_malformed_line() {
    let mut client = NntpClient::new(ClientConfig::new());
    let r = client.set_group(response(&[b"211 only-a-name", b"."]));
    match r {
        Err(NntpError::MalformedLine) => {}
        other => panic!("expected malformed line, got {:?}", other),
    }
    assert!(client.group().is_none());
}

#[test]
fn update_capabilities_replaces_the_set_wholesale() {
    let mut client = NntpClient::new(ClientConfig::new());
    client
        .update_capabilities(response(&[
            b"101 capability list follows",
            b"VERSION 2",
            b"READER",
            b"OVER MSGID",
            b".",
        ]))
        .unwrap();
    assert_eq!(client.capabilities().len(), 3);
    assert_eq!(client.capabilities().entries[0].label, b"VERSION".to_vec());
    assert_eq!(client.capabilities().entries[0].params, vec![b"2".to_vec()]);
    assert_eq!(client.capabilities().entries[1].label, b"READER".to_vec());
    assert!(client.capabilities().entries[1].params.is_empty());
    assert_eq!(client.capabilities().entries[2].label, b"OVER".to_vec());
    assert_eq!(client.capabilities().entries[2].params, vec![b"MSGID".to_vec()]);

    client
        .update_capabilities(response(&[b"101 capability list follows", b"READER", b"."]))
        .unwrap();
    assert_eq!(client.capabilities().len(), 1);
    assert_eq!(client.capabilities().entries[0].label, b"READER".to_vec());
}

#[test]
fn update_capabilities_wrong_code_is_failure() {
    let mut client = NntpClient::new(ClientConfig::new());
    let r = client.update_capabilities(response(&[b"480 authentication required"]));
    match r {
        Err(NntpError::Failure { code, .. }) => {
            assert_eq!(code, ResponseCode::Known(Kind::AuthenticationRequired));
        }
        other => panic!("expected failure, got {:?}", other),
    }
    assert_eq!(client.capabilities().len(), 0);
}

#[test]
fn close_on_closing_code_clears_group_and_closes() {
    let mut client = NntpClient::new(ClientConfig::new());
    client
        .set_group(response(&[b"211 6 1 6 misc.test", b"."]))
        .unwrap();
    client.close(response(&[b"205 closing connection"])).unwrap();
    assert_eq!(client.state(), SessionState::Closed);
    assert!(client.group().is_none());
}

#[test]
fn close_on_other_code_leaves_session_open() {
    let mut client = NntpClient::new(ClientConfig::new());
    client
        .set_group(response(&[b"211 6 1 6 misc.test", b"."]))
        .unwrap();
    let r = client.close(response(&[b"400 not closing"]));
    match r {
        Err(NntpError::Failure { code, .. }) => {
            assert_eq!(code, ResponseCode::Known(Kind::ServiceTemporarilyUnavailable));
        }
        other => panic!("expected failure, got {:?}", other),
    }
    assert_eq!(client.state(), SessionState::Connected);
    assert_eq!(client.group().unwrap().name, b"misc.test".to_vec());
}

#[test]
fn config_builders_set_their_fields() {
    let config = ClientConfig::new()
        .authinfo_user_pass(b"u".to_vec(), b"p".to_vec())
        .group(b"alt.test".to_vec())
        .read_timeout(Some(5000));
    assert_eq!(config.authinfo, Some((b"u".to_vec(), b"p".to_vec())));
    assert_eq!(config.group, Some(b"alt.test".to_vec()));
    assert_eq!(config.read_timeout_ms, Some(5000));
    assert!(config.tls_config.is_none());

    let with_tls = config.default_tls(b"news.example.org".to_vec()).unwrap();
    assert_eq!(
        with_tls.tls_config.as_ref().unwrap().domain,
        b"news.example.org".to_vec()
    );

    let explicit = ClientConfig::new().tls_config(TlsConfig { domain: b"x.example".to_vec() });
    assert_eq!(explicit.tls_config.unwrap().domain, b"x.example".to_vec());

    let default_config = ClientConfig::default();
    assert!(default_config.tls_config.is_none());
    assert!(default_config.authinfo.is_none());
    assert!(default_config.group.is_none());
    assert!(default_config.read_timeout_ms.is_none());
}

#[test]
fn plaintext_credentials_warning_signal() {
    let plain = ClientConfig::new().authinfo_user_pass(b"u".to_vec(), b"p".to_vec());
    assert!(plain.sends_credentials_in_clear());

    let with_tls = plain.default_tls(b"news.example.org".to_vec()).unwrap();
    assert!(!with_tls.sends_credentials_in_clear());

    assert!(!ClientConfig::new().sends_credentials_in_clear());
}

#[test]
fn snapshot_does_not_track_builder() {
    let config = ClientConfig::new();
    let client = NntpClient::new(config.clone());
    // mutating a builder after the session was created does not reach the session
    let _changed = config.group(b"later.group".to_vec());
    assert!(client.config().group.is_none());
}
