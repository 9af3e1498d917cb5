//! The configuration record that drives the monitor.

use vstd::prelude::*;

verus! {

/// Configuration for one monitoring run: fire the command `cmd` once per
/// cycle as soon as the certificate at `ca` is `before` days or less away
/// from expiring.
#[derive(Debug, Clone)]
pub struct Cmd {
    /// Number of days before expiration at which the command starts firing.
    pub before: u32,
    /// Path of the certificate file to watch.
    pub ca: String,
    /// Command to launch once the threshold is reached.
    pub cmd: String,
}

impl Cmd {
    /// A configuration holding only the command, with the other fields unset
    /// (`before` zero, `ca` empty).
    pub fn new(cmd: String) -> (r: Cmd)
        ensures
            r.before == 0,
            r.ca@ == Seq::<char>::empty(),
            r.cmd == cmd,
    {
        Cmd { before: 0, ca: String::new(), cmd }
    }

    /// Combine two partial configurations, field by field and first-wins:
    /// a field of `self` counts as set when it is non-zero (`before`) or
    /// non-empty (`ca`, `cmd`), and only an unset field is taken from
    /// `other`.
    pub fn merge(self, other: Cmd) -> (r: Cmd)
        ensures
            r.before == if self.before != 0 { self.before } else { other.before },
            r.ca == if self.ca@.len() != 0 { self.ca } else { other.ca },
            r.cmd == if self.cmd@.len() != 0 { self.cmd } else { other.cmd },
    {
        Cmd {
            before: if self.before != 0 { self.before } else { other.before },
            ca: if !self.ca.as_str().is_empty() { self.ca } else { other.ca },
            cmd: if !self.cmd.as_str().is_empty() { self.cmd } else { other.cmd },
        }
    }
}

} // verus!
