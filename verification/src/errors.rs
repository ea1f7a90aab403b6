//! Fatal startup errors.
//!
//! Everything here aborts startup: the launcher either runs with every
//! configured hotkey registered or refuses to run at all.  Recoverable
//! conditions — an unknown notification identifier, a command that fails
//! to start — are not errors and never appear here.

use vstd::prelude::*;
use vstd::string::StringExecFns;

verus! {

/// A condition that aborts startup before the dispatch loop is entered.
#[derive(Debug)]
pub enum StartupError {
    /// Two configured entries share a `HotkeyDescriptor`: entry `second`
    /// collides with entry `first`.  A fatal configuration error; the
    /// second entry must not silently shadow the first.
    DuplicateDescriptor { first: usize, second: usize },
    /// The operating system's hotkey subsystem could not be initialized.
    ManagerInit { reason: String },
    /// Registering the candidate entry at `index` with the operating
    /// system failed; `reason` is the subsystem's own account.
    Registration { index: usize, reason: String },
    /// The subsystem issued an identifier already bound to an earlier
    /// entry, so notifications could not be told apart.
    DuplicateIdentifier { id: u32 },
    /// An identifier was offered although every candidate is already
    /// bound.
    NothingPending,
    /// The registration sequence ended before every candidate was bound.
    Incomplete,
    /// The permission-query mechanism itself could not be consulted.
    PermissionQuery,
}

impl StartupError {
    /// The diagnostic owed to the operator for this error.
    pub open spec fn message_spec(&self) -> Seq<char> {
        match self {
            StartupError::DuplicateDescriptor { .. } => {
                "two configured entries share a key combination"@
            },
            StartupError::ManagerInit { reason } => {
                "hotkey subsystem failed to initialize: "@ + reason@
            },
            StartupError::Registration { reason, .. } => {
                "hotkey registration failed: "@ + reason@
            },
            StartupError::DuplicateIdentifier { .. } => {
                "hotkey subsystem issued a duplicate identifier"@
            },
            StartupError::NothingPending => {
                "an identifier was offered with no candidate pending"@
            },
            StartupError::Incomplete => {
                "registration ended before every candidate was bound"@
            },
            StartupError::PermissionQuery => {
                "the permission state could not be queried"@
            },
        }
    }

    /// A one-line human-readable diagnostic for the operator.
    pub fn message(&self) -> (s: String)
        ensures
            s@ == self.message_spec(),
    {
        match self {
            StartupError::DuplicateDescriptor { .. } => {
                "two configured entries share a key combination".to_owned()
            },
            StartupError::ManagerInit { reason } => {
                let mut s = "hotkey subsystem failed to initialize: ".to_owned();
                s.append(reason.as_str());
                s
            },
            StartupError::Registration { reason, .. } => {
                let mut s = "hotkey registration failed: ".to_owned();
                s.append(reason.as_str());
                s
            },
            StartupError::DuplicateIdentifier { .. } => {
                "hotkey subsystem issued a duplicate identifier".to_owned()
            },
            StartupError::NothingPending => {
                "an identifier was offered with no candidate pending".to_owned()
            },
            StartupError::Incomplete => {
                "registration ended before every candidate was bound".to_owned()
            },
            StartupError::PermissionQuery => {
                "the permission state could not be queried".to_owned()
            },
        }
    }
}

} // verus!
