//! The session state machine.
//!
//! A session tracks the client-visible state of one connection: its
//! configuration snapshot, the advertised capability set, the selected
//! group, and where it stands between connected, authenticated and closed.
//! Each protocol exchange is one request/response round trip; the methods
//! here take the already-parsed response of their exchange, decide its
//! outcome, and update the state. Sending the command line and reading the
//! reply is the embedding transport's job. A failed exchange leaves the
//! session exactly as it was before it.

use vstd::prelude::*;

use crate::bytes::copy_bytes;
use crate::command::{CommandView, NntpCommand};
use crate::error::NntpError;
use crate::response::RawResponse;
use crate::response_code::{Kind, ResponseCode};
use crate::types::{
    caps_lines_ok, caps_match_lines, group_fields, group_line_ok, Capabilities, Group,
};

verus! {

/// How a session reaches the server: in the clear, or over TLS for the
/// given domain. Building the actual secure stream is the transport's job;
/// this value only carries what it needs.
#[derive(Debug, Clone)]
pub struct TlsConfig {
    /// The domain name presented during the TLS handshake.
    pub domain: Vec<u8>,
}

/// The configuration a session is created from. It is snapshotted when the
/// session is created: changing a builder afterwards does not reach back
/// into an existing session.
#[derive(Debug, Clone)]
pub struct ClientConfig {
    /// TLS for this domain, or plain TCP when absent.
    pub tls_config: Option<TlsConfig>,
    /// Credentials for an AUTHINFO USER/PASS exchange run while the session
    /// is established, or no authentication when absent.
    pub authinfo: Option<(Vec<u8>, Vec<u8>)>,
    /// A group to select once the session is up, or none.
    pub group: Option<Vec<u8>>,
    /// The per-read timeout the transport should apply, in milliseconds.
    pub read_timeout_ms: Option<u64>,
}

impl ClientConfig {
    /// A configuration with nothing set: plain TCP, no credentials, no
    /// initial group, no read timeout.
    pub fn new() -> (r: ClientConfig)
        ensures
            r.tls_config is None,
            r.authinfo is None,
            r.group is None,
            r.read_timeout_ms is None,
    {
        ClientConfig { tls_config: None, authinfo: None, group: None, read_timeout_ms: None }
    }

    /// Run an AUTHINFO USER/PASS exchange with these credentials while the
    /// session is established.
    pub fn authinfo_user_pass(self, username: Vec<u8>, password: Vec<u8>) -> (r: ClientConfig)
        ensures
            r.authinfo == Some((username, password)),
            r.tls_config == self.tls_config,
            r.group == self.group,
            r.read_timeout_ms == self.read_timeout_ms,
    {
        ClientConfig { authinfo: Some((username, password)), ..self }
    }

    /// Use this TLS configuration.
    pub fn tls_config(self, config: TlsConfig) -> (r: ClientConfig)
        ensures
            r.tls_config == Some(config),
            r.authinfo == self.authinfo,
            r.group == self.group,
            r.read_timeout_ms == self.read_timeout_ms,
    {
        ClientConfig { tls_config: Some(config), ..self }
    }

    /// Use TLS with the default connector for this domain.
    pub fn default_tls(self, domain: Vec<u8>) -> (r: Result<ClientConfig, NntpError>)
        ensures
            r matches Ok(c) && c.tls_config == Some(TlsConfig { domain }) && c.authinfo
                == self.authinfo && c.group == self.group && c.read_timeout_ms
                == self.read_timeout_ms,
    {
        Ok(ClientConfig { tls_config: Some(TlsConfig { domain }), ..self })
    }

    /// Select this group once the session is up.
    pub fn group(self, name: Vec<u8>) -> (r: ClientConfig)
        ensures
            r.group == Some(name),
            r.tls_config == self.tls_config,
            r.authinfo == self.authinfo,
            r.read_timeout_ms == self.read_timeout_ms,
    {
        ClientConfig { group: Some(name), ..self }
    }

    /// Apply this per-read timeout, in milliseconds, or none.
    pub fn read_timeout(self, ms: Option<u64>) -> (r: ClientConfig)
        ensures
            r.read_timeout_ms == ms,
            r.tls_config == self.tls_config,
            r.authinfo == self.authinfo,
            r.group == self.group,
    {
        ClientConfig { read_timeout_ms: ms, ..self }
    }

    /// The warning signal the transport should surface before it sends
    /// credentials: true exactly when credentials are configured without
    /// TLS, so they would travel in the clear.
    pub fn sends_credentials_in_clear(&self) -> (r: bool)
        ensures
            r == (self.authinfo is Some && self.tls_config is None),
    {
        match (&self.authinfo, &self.tls_config) {
            (Some(_), None) => true,
            _ => false,
        }
    }
}

impl Default for ClientConfig {
    /// The same configuration `new` gives: nothing set.
    fn default() -> (r: ClientConfig)
        ensures
            r.tls_config is None,
            r.authinfo is None,
            r.group is None,
            r.read_timeout_ms is None,
    {
        ClientConfig::new()
    }
}

/// Where a session stands. `Closed` is terminal.
#[derive(Debug, Clone, Copy, PartialEq, Eq, Structural)]
pub enum SessionState {
    /// Post-greeting; not authenticated.
    Connected,
    /// AUTHINFO USER was acknowledged; the password has been requested.
    AuthUserAccepted,
    /// AUTHINFO PASS was accepted.
    Authenticated,
    /// QUIT was acknowledged; no further exchange may run.
    Closed,
}

/// The outcome of a USER reply: the state the session moves to, and whether
/// the exchange may proceed to sending the password.
pub open spec fn spec_auth_user_step(code: ResponseCode) -> (SessionState, bool) {
    if code == ResponseCode::Known(Kind::PasswordRequired) {
        (SessionState::AuthUserAccepted, true)
    } else {
        (SessionState::Connected, false)
    }
}

/// The outcome of a PASS reply: the state the session moves to, and whether
/// authentication succeeded.
pub open spec fn spec_auth_pass_step(code: ResponseCode) -> (SessionState, bool) {
    if code == ResponseCode::Known(Kind::AuthenticationAccepted) {
        (SessionState::Authenticated, true)
    } else {
        (SessionState::Connected, false)
    }
}

/// Law: a USER reply carrying the password-requested code followed by a
/// PASS reply carrying the accepted code takes a connected session to
/// `Authenticated`, with both steps allowed to proceed.
pub proof fn lemma_auth_two_step_success(user_code: ResponseCode, pass_code: ResponseCode)
    requires
        user_code == ResponseCode::Known(Kind::PasswordRequired),
        pass_code == ResponseCode::Known(Kind::AuthenticationAccepted),
    ensures
        spec_auth_user_step(user_code) == (SessionState::AuthUserAccepted, true),
        spec_auth_pass_step(pass_code) == (SessionState::Authenticated, true),
{
}

/// Law: a USER reply carrying any other code aborts the exchange before a
/// password is produced, and the session stays unauthenticated.
pub proof fn lemma_auth_user_rejected(code: ResponseCode)
    requires
        code != ResponseCode::Known(Kind::PasswordRequired),
    ensures
        spec_auth_user_step(code) == (SessionState::Connected, false),
{
}

/// A client session: one connection's state. Created after the server's
/// greeting; invalidated by `close` or by transport failure.
#[derive(Debug)]
pub struct NntpClient {
    /// The configuration snapshot the session was created from.
    pub config: ClientConfig,
    /// The capability set of the last successful negotiation.
    pub capabilities: Capabilities,
    /// The currently selected group, where one is selected.
    pub group: Option<Group>,
    /// Where the session stands.
    pub state: SessionState,
}

impl NntpClient {
    /// A fresh session, right after the greeting: connected, not
    /// authenticated, no capabilities negotiated, no group selected.
    pub fn new(config: ClientConfig) -> (r: NntpClient)
        ensures
            r.config == config,
            r.capabilities.entries@.len() == 0,
            r.group is None,
            r.state == SessionState::Connected,
    {
        NntpClient {
            config,
            capabilities: Capabilities::new_empty(),
            group: None,
            state: SessionState::Connected,
        }
    }

    /// The configuration snapshot of this session.
    pub fn config(&self) -> (r: &ClientConfig)
        ensures
            *r == self.config,
    {
        &self.config
    }

    /// The currently selected group, where one is selected.
    pub fn group(&self) -> (r: Option<&Group>)
        ensures
            r is Some <==> self.group is Some,
            r matches Some(g) ==> self.group == Some(*g),
    {
        self.group.as_ref()
    }

    /// The capability set of the last successful negotiation.
    pub fn capabilities(&self) -> (r: &Capabilities)
        ensures
            *r == self.capabilities,
    {
        &self.capabilities
    }

    /// Where the session stands.
    pub fn state(&self) -> (r: SessionState)
        ensures
            r == self.state,
    {
        self.state
    }

    /// The AUTHINFO USER command that opens the authentication exchange.
    pub fn auth_user_command(&self) -> (r: NntpCommand)
        requires
            self.config.authinfo is Some,
        ensures
            self.config.authinfo matches Some(cred) ==> r@ == CommandView::AuthInfoUser(cred.0@),
    {
        match &self.config.authinfo {
            Some(cred) => NntpCommand::AuthInfoUser(copy_bytes(&cred.0)),
            None => {
                proof {
                    assert(false);
                }
                NntpCommand::Quit
            },
        }
    }

    /// Decide the reply to AUTHINFO USER. On the password-requested code
    /// the session is ready for the password and the AUTHINFO PASS command
    /// to send is returned; on any other code the exchange is aborted with
    /// a `Failure`, no password command is ever produced, and the session
    /// is exactly as before.
    pub fn auth_user_reply(&mut self, resp: RawResponse) -> (r: Result<NntpCommand, NntpError>)
        requires
            old(self).state == SessionState::Connected,
            old(self).config.authinfo is Some,
            resp.wf(),
        ensures
            final(self).state == spec_auth_user_step(resp.code).0,
            (r is Ok) == spec_auth_user_step(resp.code).1,
            final(self).config == old(self).config,
            final(self).capabilities == old(self).capabilities,
            final(self).group == old(self).group,
            r matches Ok(cmd) ==> (old(self).config.authinfo matches Some(cred) && cmd@
                == CommandView::AuthInfoPass(cred.1@)),
            r matches Err(e) ==> (e matches NntpError::Failure { code, msg: _, resp: _ } && code
                == resp.code && *final(self) == *old(self)),
    {
        if resp.code == ResponseCode::Known(Kind::PasswordRequired) {
            self.state = SessionState::AuthUserAccepted;
            match &self.config.authinfo {
                Some(cred) => Ok(NntpCommand::AuthInfoPass(copy_bytes(&cred.1))),
                None => {
                    proof {
                        assert(false);
                    }
                    Err(NntpError::Decode)
                },
            }
        } else {
            let msg = copy_bytes(&resp.first_line);
            Err(NntpError::Failure { code: resp.code, msg: Some(msg), resp })
        }
    }

    /// Decide the reply to AUTHINFO PASS. On the accepted code the session
    /// becomes authenticated; on any other code it fails with a `Failure`
    /// and remains unauthenticated.
    pub fn auth_pass_reply(&mut self, resp: RawResponse) -> (r: Result<(), NntpError>)
        requires
            old(self).state == SessionState::AuthUserAccepted,
            resp.wf(),
        ensures
            final(self).state == spec_auth_pass_step(resp.code).0,
            (r is Ok) == spec_auth_pass_step(resp.code).1,
            final(self).config == old(self).config,
            final(self).capabilities == old(self).capabilities,
            final(self).group == old(self).group,
            r matches Err(e) ==> (e matches NntpError::Failure { code, msg: _, resp: _ } && code
                == resp.code),
    {
        if resp.code == ResponseCode::Known(Kind::AuthenticationAccepted) {
            self.state = SessionState::Authenticated;
            Ok(())
        } else {
            self.state = SessionState::Connected;
            let msg = copy_bytes(&resp.first_line);
            Err(NntpError::Failure { code: resp.code, msg: Some(msg), resp })
        }
    }

    /// Decide the reply to CAPABILITIES. On the capabilities code the
    /// advertised set replaces the session's wholesale; on a malformed
    /// listing or any other code nothing changes.
    pub fn update_capabilities(&mut self, resp: RawResponse) -> (r: Result<(), NntpError>)
        requires
            old(self).state != SessionState::Closed,
            resp.wf(),
        ensures
            final(self).state == old(self).state,
            final(self).config == old(self).config,
            final(self).group == old(self).group,
            resp.code == ResponseCode::Known(Kind::Capabilities) ==> {
                let ls = resp.data_blocks->Some_0.lines_model();
                &&& (caps_lines_ok(ls) ==> r is Ok && caps_match_lines(
                    final(self).capabilities.entries@,
                    ls,
                ))
                &&& (!caps_lines_ok(ls) ==> (r matches Err(e) && e is MalformedLine && *final(self) == *old(self)))
            },
            resp.code != ResponseCode::Known(Kind::Capabilities) ==> (r matches Err(e) && (
            e matches NntpError::Failure { code, msg: _, resp: _ } && code == resp.code) && *final(self) == *old(self)),
    {
        if resp.code != ResponseCode::Known(Kind::Capabilities) {
            let msg = copy_bytes(&resp.first_line);
            return Err(NntpError::Failure { code: resp.code, msg: Some(msg), resp });
        }
        match &resp.data_blocks {
            Some(db) => {
                match Capabilities::from_data_blocks(db) {
                    Ok(caps) => {
                        self.capabilities = caps;
                        Ok(())
                    },
                    Err(_) => Err(NntpError::MalformedLine),
                }
            },
            None => {
                proof {
                    assert(false);
                }
                Err(NntpError::MalformedLine)
            },
        }
    }

    /// Decide the reply to GROUP. On the group-selected code the first
    /// line's counts and name become the session's current group and the
    /// group is returned; the no-such-newsgroup code gives the distinguished
    /// not-found error; anything else a `Failure`. On every failure the
    /// session, its current group included, is exactly as before.
    pub fn set_group(&mut self, resp: RawResponse) -> (r: Result<Group, NntpError>)
        requires
            old(self).state != SessionState::Closed,
            resp.wf(),
        ensures
            final(self).state == old(self).state,
            final(self).config == old(self).config,
            final(self).capabilities == old(self).capabilities,
            resp.code == ResponseCode::Known(Kind::GroupSelected) && group_line_ok(
                resp.first_line@,
            ) ==> (r matches Ok(g) && {
                let tk = group_fields(resp.first_line@);
                &&& g.number == crate::bytes::digits_val(tk[0])
                &&& g.low == crate::bytes::digits_val(tk[1])
                &&& g.high == crate::bytes::digits_val(tk[2])
                &&& g.name@ == tk[3]
                &&& final(self).group matches Some(g2) && g2.name@ == g.name@ && g2.number
                    == g.number && g2.low == g.low && g2.high == g.high
            }),
            resp.code == ResponseCode::Known(Kind::GroupSelected) && !group_line_ok(
                resp.first_line@,
            ) ==> (r matches Err(e) && e is MalformedLine && *final(self) == *old(self)),
            resp.code == ResponseCode::Known(Kind::NoSuchNewsgroup) ==> (r matches Err(e)
                && e is GroupNotFound && *final(self) == *old(self)),
            resp.code != ResponseCode::Known(Kind::GroupSelected) && resp.code
                != ResponseCode::Known(Kind::NoSuchNewsgroup) ==> (r matches Err(e) && (
            e matches NntpError::Failure { code, msg: _, resp: _ } && code == resp.code) && *final(self) == *old(self)),
    {
        if resp.code == ResponseCode::Known(Kind::GroupSelected) {
            match Group::from_first_line(&resp.first_line) {
                Ok(group) => {
                    let copy = group.duplicate();
                    self.group = Some(copy);
                    Ok(group)
                },
                Err(_) => Err(NntpError::MalformedLine),
            }
        } else if resp.code == ResponseCode::Known(Kind::NoSuchNewsgroup) {
            Err(NntpError::GroupNotFound(resp))
        } else {
            let msg = copy_bytes(&resp.first_line);
            Err(NntpError::Failure { code: resp.code, msg: Some(msg), resp })
        }
    }

    /// Decide the reply to QUIT. On the connection-closing code the session
    /// becomes closed and its current group is cleared; on any other code
    /// it fails with a `Failure` and is left open, exactly as before.
    pub fn close(&mut self, resp: RawResponse) -> (r: Result<(), NntpError>)
        requires
            old(self).state != SessionState::Closed,
            resp.wf(),
        ensures
            final(self).config == old(self).config,
            resp.code == ResponseCode::Known(Kind::ConnectionClosing) ==> (r is Ok && final(self).state == SessionState::Closed && final(self).group is None
                && final(self).capabilities == old(self).capabilities),
            resp.code != ResponseCode::Known(Kind::ConnectionClosing) ==> (r matches Err(e) && (
            e matches NntpError::Failure { code, msg: _, resp: _ } && code == resp.code) && *final(self) == *old(self)),
    {
        if resp.code == ResponseCode::Known(Kind::ConnectionClosing) {
            self.state = SessionState::Closed;
            self.group = None;
            Ok(())
        } else {
            let msg = copy_bytes(&resp.first_line);
            Err(NntpError::Failure { code: resp.code, msg: Some(msg), resp })
        }
    }
}

} // verus!
