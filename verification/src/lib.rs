//! A capability-based permission engine for a sandboxed script runtime.
//!
//! The engine decides whether guest code may read or write files, reach
//! network endpoints, read environment variables, spawn subprocesses, load
//! plugins or use high-precision timers. It answers queries, asks the
//! operator where the answer is open, takes grants back, and derives the
//! permissions of a child context, which are never stronger than its own.
//!
//! Every public function carries a contract over a mathematical model of
//! the permission state: a default verdict and two sets per resource class.
//! The contracts, and the laws in `laws`, are machine-checked.
//!
//! The engine performs no input or output. The working directory is an
//! argument, the operator is a `Prompter`, and the access log is a text
//! that the caller writes.

pub mod equality;
pub mod error;
pub mod laws;
pub mod messages;
pub mod net;
pub mod path;
pub mod perms;
pub mod prompt;
pub mod rules;
pub mod state;
pub mod unary;
pub mod verbs;

pub use error::{ErrorKind, PermissionError};
pub use net::NetUrl;
pub use path::FsPath;
pub use perms::{Flags, Permissions};
pub use prompt::{FixedPrompter, Prompter};
pub use state::PermissionState;
pub use unary::UnaryPermission;
