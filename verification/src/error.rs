//! The error taxonomy: filesystem failures, missing privilege, and failed
//! control-plane commands.

use vstd::prelude::*;
use vstd::string::StringExecFns;

verus! {

/// One of the three failure kinds every operation can surface.
///
/// `Io` covers filesystem creation/write failures and the anti-clobber
/// "already exists" condition; `Permission` means the capability check
/// reported that the process is not privileged; `Command` means an external
/// control-plane invocation exited with a non-zero status.
pub enum Error {
    Io(String),
    Permission(String),
    Command(String),
}

/// What `message` returns for each error kind: a fixed kind label followed
/// by the error's own text.
pub open spec fn spec_message(e: Error) -> Seq<char> {
    match e {
        Error::Io(m) => "I/O error: "@ + m@,
        Error::Permission(m) => "Permission error: "@ + m@,
        Error::Command(m) => "Command error: "@ + m@,
    }
}

impl Error {
    /// Renders the error as human-readable text.
    pub fn message(&self) -> (r: String)
        ensures
            r@ == spec_message(*self),
    {
        match self {
            Error::Io(m) => String::from_str("I/O error: ").concat(m.as_str()),
            Error::Permission(m) => String::from_str("Permission error: ").concat(m.as_str()),
            Error::Command(m) => String::from_str("Command error: ").concat(m.as_str()),
        }
    }
}

} // verus!
