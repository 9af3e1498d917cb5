//! Watches the expiration date of an X.509 certificate and, once the
//! remaining validity falls at or below a configured threshold, launches a
//! configured command once per check cycle.
//!
//! The library holds the verified core: the `notAfter=...` date grammar, the
//! calendar model behind it, the day-delta arithmetic against "now", the
//! per-cycle firing decision, and the command-line configuration rules. The
//! certificate-inspection tool and the user command run behind the
//! [`monitor::OpenSSHCmd`] and [`monitor::Process`] capabilities, so callers
//! and tests can substitute them without spawning real processes.

pub mod ascii;
pub mod expiry_date;
pub mod monitor;
pub mod parse_cmd;
pub mod parse_usr_cmd;

pub use parse_usr_cmd::Cmd;
