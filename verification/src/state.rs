//! The three-valued authority tag.

use vstd::prelude::*;
use vstd::std_specs::convert::FromSpecImpl;
use crate::error::{permission_escalation_error, ErrorKind, PermissionError};

verus! {

/// Authority over one class of resource, from least to most strict.
#[derive(PartialEq, Eq, Structural, Clone, Copy, Debug)]
pub enum PermissionState {
    Granted,
    Prompt,
    Denied,
}

/// The message of a failed check: the operation, then the flag that would
/// authorize it.
pub open spec fn denial_text(operation: Seq<char>, flag: Seq<char>) -> Seq<char> {
    operation + ", run again with the "@ + flag + " flag"@
}

impl PermissionState {
    /// The strictness of a state: 0 for `Granted`, 1 for `Prompt`, 2 for
    /// `Denied`.
    pub open spec fn code(self) -> nat {
        match self {
            PermissionState::Granted => 0,
            PermissionState::Prompt => 1,
            PermissionState::Denied => 2,
        }
    }

    /// Whether a parent in state `self` may hand `child` to a fork: a denied
    /// parent only to a denied child, a prompting parent to no granted child.
    pub open spec fn covers(self, child: PermissionState) -> bool {
        &&& !(self == PermissionState::Denied && child != PermissionState::Denied)
        &&& !(self == PermissionState::Prompt && child == PermissionState::Granted)
    }

    /// The state after a revoke: `Granted` falls back to `Prompt`.
    pub open spec fn revoked(self) -> PermissionState {
        if self == PermissionState::Granted {
            PermissionState::Prompt
        } else {
            self
        }
    }

    /// The state after a request that the operator answers with `answer`:
    /// only `Prompt` asks, and then the answer decides.
    pub open spec fn requested(self, answer: bool) -> PermissionState {
        if self == PermissionState::Prompt {
            if answer {
                PermissionState::Granted
            } else {
                PermissionState::Denied
            }
        } else {
            self
        }
    }

    /// The state in lower case, as shown to the operator.
    pub open spec fn display_text(self) -> Seq<char> {
        match self {
            PermissionState::Granted => "granted"@,
            PermissionState::Prompt => "prompt"@,
            PermissionState::Denied => "denied"@,
        }
    }

    /// The state with strictness `val`.
    pub fn from_code(val: usize) -> (state: PermissionState)
        requires
            val <= 2,
        ensures
            state.code() == val,
    {
        if val == 0 {
            PermissionState::Granted
        } else if val == 1 {
            PermissionState::Prompt
        } else {
            PermissionState::Denied
        }
    }

    pub fn to_string(self) -> (text: String)
        ensures
            text@ == self.display_text(),
    {
        match self {
            PermissionState::Granted => String::from_str("granted"),
            PermissionState::Prompt => String::from_str("prompt"),
            PermissionState::Denied => String::from_str("denied"),
        }
    }

    /// Enforce the state: `Granted` passes, anything else fails with a
    /// message that names the operation and the flag.
    pub fn check(self, msg: &str, flag_name: &str) -> (res: Result<(), PermissionError>)
        ensures
            res.is_ok() <==> self == PermissionState::Granted,
            res matches Err(e) ==> e.kind == ErrorKind::PermissionDenied && e.message@
                == denial_text(msg@, flag_name@),
    {
        if self == PermissionState::Granted {
            return Ok(());
        }
        let mut message = String::from_str(msg);
        message.append(", run again with the ");
        message.append(flag_name);
        message.append(" flag");
        Err(PermissionError { kind: ErrorKind::PermissionDenied, message })
    }

    /// Check that a child in state `other` does not escalate `self`.
    pub fn check_fork(self, other: &PermissionState) -> (res: Result<(), PermissionError>)
        ensures
            res.is_ok() <==> self.covers(*other),
            res matches Err(e) ==> e.kind == ErrorKind::PermissionDenied && e.message@
                == crate::error::escalation_text(),
    {
        if self == PermissionState::Denied && *other != PermissionState::Denied
            || self == PermissionState::Prompt && *other == PermissionState::Granted {
            return Err(permission_escalation_error());
        }
        Ok(())
    }
}

impl From<bool> for PermissionState {
    fn from(val: bool) -> (state: PermissionState) {
        if val {
            PermissionState::Granted
        } else {
            PermissionState::Prompt
        }
    }
}

impl FromSpecImpl<bool> for PermissionState {
    open spec fn obeys_from_spec() -> bool {
        true
    }

    open spec fn from_spec(val: bool) -> PermissionState {
        if val {
            PermissionState::Granted
        } else {
            PermissionState::Prompt
        }
    }
}

impl Default for PermissionState {
    fn default() -> (state: PermissionState)
        ensures
            state == PermissionState::Prompt,
    {
        PermissionState::Prompt
    }
}

/// `covers` orders the states by strictness.
pub proof fn lemma_covers_is_order(parent: PermissionState, child: PermissionState)
    ensures
        parent.covers(child) <==> parent.code() <= child.code(),
{
}

} // verus!
