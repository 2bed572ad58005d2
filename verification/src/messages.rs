use vstd::prelude::*;
use vstd::string::StringExecFns;

use crate::text::{decimal_of, push_decimal_u16};

verus! {

/// The `host:port` form in which the target address is shown.
pub open spec fn address_text(host: Seq<char>, port: u16) -> Seq<char> {
    host + ":"@ + decimal_of(port as nat)
}

/// Diagnostic for an address whose syntax the resolver rejected.
pub open spec fn invalid_address_text(host: Seq<char>, port: u16, cause: Seq<char>) -> Seq<char> {
    "Invalid host/port '"@ + address_text(host, port) + "': "@ + cause
}

/// Diagnostic for a hostname that resolved to no address at all.
pub open spec fn unresolved_host_text(host: Seq<char>) -> Seq<char> {
    "Could not resolve host: "@ + host
}

/// Diagnostic for a connection attempt that timed out or was refused.
pub open spec fn unreachable_text(host: Seq<char>, port: u16, cause: Seq<char>) -> Seq<char> {
    "Cannot reach "@ + address_text(host, port) + ". Check host and port. Error: "@ + cause
}

/// Diagnostic for a failed protocol handshake.
pub open spec fn handshake_failed_text(cause: Seq<char>) -> Seq<char> {
    "SSH handshake failed: "@ + cause
}

/// Diagnostic for a failed password authentication attempt.
pub open spec fn password_auth_failed_text(username: Seq<char>, cause: Seq<char>) -> Seq<char> {
    "Password authentication failed for user '"@ + username + "': "@ + cause
}

/// Diagnostic for a failed agent authentication attempt.
pub open spec fn agent_auth_failed_text(username: Seq<char>, cause: Seq<char>) -> Seq<char> {
    "SSH agent authentication failed for user '"@ + username + "': "@ + cause
}

/// Diagnostic for a session that an authentication call left
/// unauthenticated even though the call itself reported success. Like
/// every authentication failure, it names the account it concerns.
pub open spec fn unauthenticated_text(username: Seq<char>) -> Seq<char> {
    "Authentication failed for user '"@ + username + "' - check username and password"@
}

/// Diagnostic for a failure to open the file-transfer sub-channel.
pub open spec fn channel_open_failed_text(cause: Seq<char>) -> Seq<char> {
    "Failed to start SFTP session: "@ + cause
}

/// Report shown after a successful connectivity test.
pub open spec fn connection_success_text(username: Seq<char>, host: Seq<char>, port: u16) -> Seq<
    char,
> {
    "Successfully connected to "@ + username + "@"@ + address_text(host, port)
}

/// Append `host:port` to `out`.
pub(crate) fn push_address(out: &mut String, host: &str, port: u16)
    ensures
        final(out)@ == old(out)@ + address_text(host@, port),
{
    out.append(host);
    out.append(":");
    push_decimal_u16(out, port);
    proof {
        assert(out@ =~= old(out)@ + address_text(host@, port));
    }
}

pub(crate) fn invalid_address_message(host: &str, port: u16, cause: &str) -> (r: String)
    ensures
        r@ == invalid_address_text(host@, port, cause@),
{
    let mut out = "Invalid host/port '".to_owned();
    push_address(&mut out, host, port);
    out.append("': ");
    out.append(cause);
    proof {
        assert(out@ =~= invalid_address_text(host@, port, cause@));
    }
    out
}

pub(crate) fn unresolved_host_message(host: &str) -> (r: String)
    ensures
        r@ == unresolved_host_text(host@),
{
    let mut out = "Could not resolve host: ".to_owned();
    out.append(host);
    proof {
        assert(out@ =~= unresolved_host_text(host@));
    }
    out
}

pub(crate) fn unreachable_message(host: &str, port: u16, cause: &str) -> (r: String)
    ensures
        r@ == unreachable_text(host@, port, cause@),
{
    let mut out = "Cannot reach ".to_owned();
    push_address(&mut out, host, port);
    out.append(". Check host and port. Error: ");
    out.append(cause);
    proof {
        assert(out@ =~= unreachable_text(host@, port, cause@));
    }
    out
}

pub(crate) fn handshake_failed_message(cause: &str) -> (r: String)
    ensures
        r@ == handshake_failed_text(cause@),
{
    let mut out = "SSH handshake failed: ".to_owned();
    out.append(cause);
    proof {
        assert(out@ =~= handshake_failed_text(cause@));
    }
    out
}

pub(crate) fn password_auth_failed_message(username: &str, cause: &str) -> (r: String)
    ensures
        r@ == password_auth_failed_text(username@, cause@),
{
    let mut out = "Password authentication failed for user '".to_owned();
    out.append(username);
    out.append("': ");
    out.append(cause);
    proof {
        assert(out@ =~= password_auth_failed_text(username@, cause@));
    }
    out
}

pub(crate) fn agent_auth_failed_message(username: &str, cause: &str) -> (r: String)
    ensures
        r@ == agent_auth_failed_text(username@, cause@),
{
    let mut out = "SSH agent authentication failed for user '".to_owned();
    out.append(username);
    out.append("': ");
    out.append(cause);
    proof {
        assert(out@ =~= agent_auth_failed_text(username@, cause@));
    }
    out
}

pub(crate) fn unauthenticated_message(username: &str) -> (r: String)
    ensures
        r@ == unauthenticated_text(username@),
{
    let mut out = "Authentication failed for user '".to_owned();
    out.append(username);
    out.append("' - check username and password");
    proof {
        assert(out@ =~= unauthenticated_text(username@));
    }
    out
}

pub(crate) fn channel_open_failed_message(cause: &str) -> (r: String)
    ensures
        r@ == channel_open_failed_text(cause@),
{
    let mut out = "Failed to start SFTP session: ".to_owned();
    out.append(cause);
    proof {
        assert(out@ =~= channel_open_failed_text(cause@));
    }
    out
}

/// The report a caller shows after `test_connection` succeeds.
pub fn connection_success_message(username: &str, host: &str, port: u16) -> (r: String)
    ensures
        r@ == connection_success_text(username@, host@, port),
{
    let mut out = "Successfully connected to ".to_owned();
    out.append(username);
    out.append("@");
    push_address(&mut out, host, port);
    proof {
        assert(out@ =~= connection_success_text(username@, host@, port));
    }
    out
}

/// The demonstration greeting of the application shell.
pub fn greet(name: &str) -> (r: String)
    ensures
        r@ == "Hello, "@ + name@ + "! You've been greeted from Rust!"@,
{
    let mut out = "Hello, ".to_owned();
    out.append(name);
    out.append("! You've been greeted from Rust!");
    proof {
        assert(out@ =~= "Hello, "@ + name@ + "! You've been greeted from Rust!"@);
    }
    out
}

} // verus!
