use vstd::prelude::*;
use vstd::string::StringExecFns;

verus! {

/// Why establishing an authenticated session failed.
///
/// Each variant corresponds to one stage of session establishment: decoding
/// the private key, dialing the remote port within the time budget, the
/// transport handshake, and key authentication. All of them are fatal for
/// the connect call that reported them; only the dial step is retried, and
/// only until the budget runs out.
#[derive(Clone, Copy, Debug, PartialEq, Eq, Structural)]
pub enum ConnectError {
    /// The supplied private-key material could not be decoded.
    KeyDecode,
    /// Every dial attempt failed and the overall time budget ran out.
    ConnectTimeoutExceeded,
    /// The transport handshake over the open socket failed.
    HandshakeFailed,
    /// Authenticating with the username and decoded key failed.
    AuthenticationFailed,
}

/// The context string naming the operation a connect-phase error failed in.
pub open spec fn connect_context(e: ConnectError) -> Seq<char> {
    match e {
        ConnectError::KeyDecode => "failed to decode private key"@,
        ConnectError::ConnectTimeoutExceeded => "failed to connect to ssh port"@,
        ConnectError::HandshakeFailed => "failed to establish ssh session"@,
        ConnectError::AuthenticationFailed => "failed to authenticate ssh session"@,
    }
}

impl ConnectError {
    /// Human-readable context naming the operation that failed.
    pub fn describe(&self) -> (r: &'static str)
        ensures
            r@ == connect_context(*self),
    {
        match self {
            ConnectError::KeyDecode => "failed to decode private key",
            ConnectError::ConnectTimeoutExceeded => "failed to connect to ssh port",
            ConnectError::HandshakeFailed => "failed to establish ssh session",
            ConnectError::AuthenticationFailed => "failed to authenticate ssh session",
        }
    }
}

/// Why executing one command over an established session failed.
///
/// Every variant is fatal for the call that reported it: there is no
/// partial result, and no retry at this layer.
#[derive(Clone, Copy, Debug, PartialEq, Eq, Structural)]
pub enum ExecError {
    /// The execution channel for the command could not be opened.
    OpenFailed,
    /// Reading the command's output stream failed before end-of-stream.
    ReadFailed,
    /// The command's output is not valid UTF-8, and text was asked for.
    InvalidUtf8,
}

/// The context string naming the operation an execution error failed in.
pub open spec fn exec_context(e: ExecError) -> Seq<char> {
    match e {
        ExecError::OpenFailed => "failed to execute command"@,
        ExecError::ReadFailed => "failed to read stdout of command"@,
        ExecError::InvalidUtf8 => "invalid utf-8 in command output"@,
    }
}

impl ExecError {
    /// Human-readable context naming the operation that failed.
    pub fn describe(&self) -> (r: &'static str)
        ensures
            r@ == exec_context(*self),
    {
        match self {
            ExecError::OpenFailed => "failed to execute command",
            ExecError::ReadFailed => "failed to read stdout of command",
            ExecError::InvalidUtf8 => "invalid utf-8 in command output",
        }
    }
}

/// The full context string for one failed command: the operation that
/// failed with the command quoted, as in `failed to execute command 'ls'`.
/// Output that is not UTF-8 is reported without the command, which played
/// no part in the failure.
pub fn describe_for_command(e: &ExecError, cmd: &str) -> (r: String)
    ensures
        (*e is OpenFailed || *e is ReadFailed) ==> r@ == exec_context(*e) + " '"@ + cmd@ + "'"@,
        *e is InvalidUtf8 ==> r@ == exec_context(*e),
{
    let mut s = String::from_str(e.describe());
    match e {
        ExecError::InvalidUtf8 => s,
        _ => {
            s.append(" '");
            s.append(cmd);
            s.append("'");
            s
        },
    }
}

} // verus!
