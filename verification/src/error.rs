//! Failures reported by the permission engine.

use vstd::prelude::*;

verus! {

/// The class of a failure.
#[derive(PartialEq, Eq, Structural, Clone, Copy, Debug)]
pub enum ErrorKind {
    /// A check failed, or a fork tried to escalate.
    PermissionDenied,
    /// A network target is not a URL with a host.
    UriError,
    /// A working directory that is not an absolute path.
    InvalidArgument,
}

impl ErrorKind {
    /// The tag under which the class is reported.
    pub open spec fn tag_text(self) -> Seq<char> {
        match self {
            ErrorKind::PermissionDenied => "PermissionDenied"@,
            ErrorKind::UriError => "URIError"@,
            ErrorKind::InvalidArgument => "InvalidArgument"@,
        }
    }

    pub fn tag(self) -> (text: String)
        ensures
            text@ == self.tag_text(),
    {
        match self {
            ErrorKind::PermissionDenied => String::from_str("PermissionDenied"),
            ErrorKind::UriError => String::from_str("URIError"),
            ErrorKind::InvalidArgument => String::from_str("InvalidArgument"),
        }
    }
}

/// A failure: its class and a message for the operator.
#[derive(Clone, Debug)]
pub struct PermissionError {
    pub kind: ErrorKind,
    pub message: String,
}

impl PermissionError {
    /// The failure as one line: the tag, a colon, the message.
    pub open spec fn line_text(&self) -> Seq<char> {
        self.kind.tag_text() + ": "@ + self.message@
    }

    pub fn to_string(&self) -> (line: String)
        ensures
            line@ == self.line_text(),
    {
        let mut line = self.kind.tag();
        line.append(": ");
        line.append(self.message.as_str());
        line
    }
}

/// The message of every refused fork. It does not say which field escalated.
pub open spec fn escalation_text() -> Seq<char> {
    "Arguments escalate parent permissions"@
}

pub fn permission_escalation_error() -> (e: PermissionError)
    ensures
        e.kind == ErrorKind::PermissionDenied,
        e.message@ == escalation_text(),
{
    PermissionError {
        kind: ErrorKind::PermissionDenied,
        message: String::from_str("Arguments escalate parent permissions"),
    }
}

} // verus!
