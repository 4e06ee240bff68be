//! Typed commands and their wire encoding.
//!
//! Every command renders to exactly one line of space-separated ASCII
//! tokens. The CRLF terminator is appended by the transport's line writer,
//! not here, and commands never carry a data block. Encoding is total, and
//! decoding a produced line gives the command back.

use vstd::prelude::*;

use crate::bytes::{append_bytes, copy_tail, starts_with};

verus! {

/// A command this client can issue.
#[derive(Debug)]
pub enum NntpCommand {
    /// CAPABILITIES
    Capabilities,
    /// GROUP with the newsgroup name
    Group(Vec<u8>),
    /// AUTHINFO USER with the username
    AuthInfoUser(Vec<u8>),
    /// AUTHINFO PASS with the password
    AuthInfoPass(Vec<u8>),
    /// QUIT
    Quit,
}

/// The mathematical value of a command: its argument as a byte sequence.
pub enum CommandView {
    Capabilities,
    Group(Seq<u8>),
    AuthInfoUser(Seq<u8>),
    AuthInfoPass(Seq<u8>),
    Quit,
}

impl View for NntpCommand {
    type V = CommandView;

    open spec fn view(&self) -> CommandView {
        match self {
            NntpCommand::Capabilities => CommandView::Capabilities,
            NntpCommand::Group(name) => CommandView::Group(name@),
            NntpCommand::AuthInfoUser(user) => CommandView::AuthInfoUser(user@),
            NntpCommand::AuthInfoPass(pass) => CommandView::AuthInfoPass(pass@),
            NntpCommand::Quit => CommandView::Quit,
        }
    }
}

/// The bytes of "CAPABILITIES".
pub open spec fn capabilities_bytes() -> Seq<u8> {
    seq![67u8, 65u8, 80u8, 65u8, 66u8, 73u8, 76u8, 73u8, 84u8, 73u8, 69u8, 83u8]
}

/// The bytes of "QUIT".
pub open spec fn quit_bytes() -> Seq<u8> {
    seq![81u8, 85u8, 73u8, 84u8]
}

/// The bytes of "GROUP ".
pub open spec fn group_prefix() -> Seq<u8> {
    seq![71u8, 82u8, 79u8, 85u8, 80u8, 32u8]
}

/// The bytes of "AUTHINFO USER ".
pub open spec fn authinfo_user_prefix() -> Seq<u8> {
    seq![65u8, 85u8, 84u8, 72u8, 73u8, 78u8, 70u8, 79u8, 32u8, 85u8, 83u8, 69u8, 82u8, 32u8]
}

/// The bytes of "AUTHINFO PASS ".
pub open spec fn authinfo_pass_prefix() -> Seq<u8> {
    seq![65u8, 85u8, 84u8, 72u8, 73u8, 78u8, 70u8, 79u8, 32u8, 80u8, 65u8, 83u8, 83u8, 32u8]
}

/// The wire line of a command, without its CRLF terminator.
pub open spec fn encoded(c: CommandView) -> Seq<u8> {
    match c {
        CommandView::Capabilities => capabilities_bytes(),
        CommandView::Group(name) => group_prefix() + name,
        CommandView::AuthInfoUser(user) => authinfo_user_prefix() + user,
        CommandView::AuthInfoPass(pass) => authinfo_pass_prefix() + pass,
        CommandView::Quit => quit_bytes(),
    }
}

/// The command a wire line spells, read back by its leading keyword.
pub open spec fn decoded(s: Seq<u8>) -> Option<CommandView> {
    if s == capabilities_bytes() {
        Some(CommandView::Capabilities)
    } else if s == quit_bytes() {
        Some(CommandView::Quit)
    } else if group_prefix().is_prefix_of(s) {
        Some(CommandView::Group(s.skip(group_prefix().len() as int)))
    } else if authinfo_user_prefix().is_prefix_of(s) {
        Some(CommandView::AuthInfoUser(s.skip(authinfo_user_prefix().len() as int)))
    } else if authinfo_pass_prefix().is_prefix_of(s) {
        Some(CommandView::AuthInfoPass(s.skip(authinfo_pass_prefix().len() as int)))
    } else {
        None
    }
}

/// Decoding the line that encoding produced yields the command back, for
/// every command value.
pub proof fn lemma_command_round_trip(c: CommandView)
    ensures
        decoded(encoded(c)) == Some(c),
{
    match c {
        CommandView::Capabilities => {},
        CommandView::Quit => {
            assert(quit_bytes() != capabilities_bytes());
        },
        CommandView::Group(name) => {
            let e = group_prefix() + name;
            assert(e[0] == 71);
            assert(e != capabilities_bytes());
            assert(e != quit_bytes());
            assert(group_prefix().is_prefix_of(e)) by {
                assert(e.subrange(0, 6) =~= group_prefix());
            }
            assert(e.skip(6) =~= name);
        },
        CommandView::AuthInfoUser(user) => {
            let e = authinfo_user_prefix() + user;
            assert(e[0] == 65);
            assert(e != capabilities_bytes());
            assert(e != quit_bytes());
            assert(!group_prefix().is_prefix_of(e)) by {
                assert(e.subrange(0, 6)[0] == 65);
            }
            assert(authinfo_user_prefix().is_prefix_of(e)) by {
                assert(e.subrange(0, 14) =~= authinfo_user_prefix());
            }
            assert(e.skip(14) =~= user);
        },
        CommandView::AuthInfoPass(pass) => {
            let e = authinfo_pass_prefix() + pass;
            assert(e[0] == 65);
            assert(e != capabilities_bytes());
            assert(e != quit_bytes());
            assert(!group_prefix().is_prefix_of(e)) by {
                assert(e.subrange(0, 6)[0] == 65);
            }
            assert(!authinfo_user_prefix().is_prefix_of(e)) by {
                assert(e.subrange(0, 14)[9] == 80);
                assert(authinfo_user_prefix()[9] == 85);
            }
            assert(authinfo_pass_prefix().is_prefix_of(e)) by {
                assert(e.subrange(0, 14) =~= authinfo_pass_prefix());
            }
            assert(e.skip(14) =~= pass);
        },
    }
}

/// The executable "CAPABILITIES" keyword.
fn capabilities_vec() -> (r: Vec<u8>)
    ensures
        r@ == capabilities_bytes(),
{
    let r: Vec<u8> = vec![67u8, 65u8, 80u8, 65u8, 66u8, 73u8, 76u8, 73u8, 84u8, 73u8, 69u8, 83u8];
    proof {
        assert(r@ =~= capabilities_bytes());
    }
    r
}

/// The executable "QUIT" keyword.
fn quit_vec() -> (r: Vec<u8>)
    ensures
        r@ == quit_bytes(),
{
    let r: Vec<u8> = vec![81u8, 85u8, 73u8, 84u8];
    proof {
        assert(r@ =~= quit_bytes());
    }
    r
}

/// The executable "GROUP " prefix.
fn group_prefix_vec() -> (r: Vec<u8>)
    ensures
        r@ == group_prefix(),
{
    let r: Vec<u8> = vec![71u8, 82u8, 79u8, 85u8, 80u8, 32u8];
    proof {
        assert(r@ =~= group_prefix());
    }
    r
}

/// The executable "AUTHINFO USER " prefix.
fn authinfo_user_prefix_vec() -> (r: Vec<u8>)
    ensures
        r@ == authinfo_user_prefix(),
{
    let r: Vec<u8> = vec![
        65u8,
        85u8,
        84u8,
        72u8,
        73u8,
        78u8,
        70u8,
        79u8,
        32u8,
        85u8,
        83u8,
        69u8,
        82u8,
        32u8,
    ];
    proof {
        assert(r@ =~= authinfo_user_prefix());
    }
    r
}

/// The executable "AUTHINFO PASS " prefix.
fn authinfo_pass_prefix_vec() -> (r: Vec<u8>)
    ensures
        r@ == authinfo_pass_prefix(),
{
    let r: Vec<u8> = vec![
        65u8,
        85u8,
        84u8,
        72u8,
        73u8,
        78u8,
        70u8,
        79u8,
        32u8,
        80u8,
        65u8,
        83u8,
        83u8,
        32u8,
    ];
    proof {
        assert(r@ =~= authinfo_pass_prefix());
    }
    r
}

/// Encode a command as its wire line, without the CRLF terminator.
pub fn encode(cmd: &NntpCommand) -> (r: Vec<u8>)
    ensures
        r@ == encoded(cmd@),
{
    match cmd {
        NntpCommand::Capabilities => capabilities_vec(),
        NntpCommand::Quit => quit_vec(),
        NntpCommand::Group(name) => {
            let mut r = group_prefix_vec();
            append_bytes(&mut r, name);
            r
        },
        NntpCommand::AuthInfoUser(user) => {
            let mut r = authinfo_user_prefix_vec();
            append_bytes(&mut r, user);
            r
        },
        NntpCommand::AuthInfoPass(pass) => {
            let mut r = authinfo_pass_prefix_vec();
            append_bytes(&mut r, pass);
            r
        },
    }
}

/// Decode a wire line back into a command, or `None` where the line spells
/// no command of this client.
pub fn decode(line: &Vec<u8>) -> (r: Option<NntpCommand>)
    ensures
        r matches Some(c) ==> decoded(line@) == Some(c@),
        r is None ==> decoded(line@) is None,
{
    let capabilities = capabilities_vec();
    let quit = quit_vec();
    let group = group_prefix_vec();
    let user = authinfo_user_prefix_vec();
    let pass = authinfo_pass_prefix_vec();
    if vecs_equal(line, &capabilities) {
        Some(NntpCommand::Capabilities)
    } else if vecs_equal(line, &quit) {
        Some(NntpCommand::Quit)
    } else if starts_with(line, &group) {
        Some(NntpCommand::Group(copy_tail(line, 6)))
    } else if starts_with(line, &user) {
        Some(NntpCommand::AuthInfoUser(copy_tail(line, 14)))
    } else if starts_with(line, &pass) {
        Some(NntpCommand::AuthInfoPass(copy_tail(line, 14)))
    } else {
        None
    }
}

/// Whether two byte vectors hold the same bytes.
fn vecs_equal(a: &Vec<u8>, b: &Vec<u8>) -> (r: bool)
    ensures
        r <==> a@ == b@,
{
    if a.len() != b.len() {
        return false;
    }
    let mut i: usize = 0;
    while i < a.len()
        invariant
            0 <= i <= a@.len(),
            a@.len() == b@.len(),
            forall|j: int| 0 <= j < i ==> a@[j] == b@[j],
        decreases a@.len() - i,
    {
        if a[i] != b[i] {
            return false;
        }
        i = i + 1;
    }
    proof {
        assert(a@ =~= b@);
    }
    true
}

} // verus!
