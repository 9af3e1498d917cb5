//! The per-cycle monitoring step: fetch the expiration text, read it,
//! compute the whole-day delta against the current time, and decide whether
//! to fire the configured command.
//!
//! The certificate lookup and the command launch stand behind the
//! [`OpenSSHCmd`] and [`Process`] capabilities so that the decision logic
//! can be exercised with scripted doubles. A fetch or parse failure is
//! fatal to the cycle and surfaces as an error; a failure of the launched
//! command is recorded in the outcome and never aborts the cycle.

use vstd::arithmetic::div_mod::{lemma_div_is_ordered, lemma_div_nonincreasing};
use vstd::prelude::*;

use crate::expiry_date::{
    parse_expiration, spec_epoch_seconds, spec_parse_expiration, ParseError,
};
use crate::parse_usr_cmd::Cmd;

verus! {

/// Capability: obtain the raw `notAfter=...` expiration text for the
/// certificate at `ca`. The default implementation shells out to the
/// certificate-inspection tool and hands back its trimmed standard output;
/// a test double returns a scripted text or error instead.
pub trait OpenSSHCmd {
    fn get_expiration_cert(&self, ca: &str) -> Result<String, String>;
}

/// Capability: launch the configured command. The default implementation
/// spawns it as a detached child process; a test double records the
/// invocation instead.
pub trait Process {
    fn execute_script(&self, cmd_args: &Cmd) -> Result<(), String>;
}

/// What one cycle decided, before any command is launched.
#[derive(Clone, Copy, Debug, PartialEq, Eq, Structural)]
pub enum Decision {
    /// The threshold is reached: fire the command this cycle.
    Fire { diff_num_days: i64 },
    /// The expiration is still far enough away: do nothing this cycle.
    Wait { diff_num_days: i64 },
}

/// What one cycle did. A failure of the launched command is recorded here
/// as `action_ok == false`, never as an error of the cycle.
#[derive(Clone, Copy, Debug, PartialEq, Eq, Structural)]
pub enum CycleOutcome {
    /// The command was launched; `action_ok` tells whether the launch
    /// itself succeeded.
    Fired { diff_num_days: i64, action_ok: bool },
    /// No action was taken this cycle.
    Waited { diff_num_days: i64 },
}

/// Whole days in a signed number of seconds, truncated toward zero.
pub open spec fn spec_days_of_secs(diff: int) -> int {
    if diff >= 0 {
        diff / 86400
    } else {
        -((-diff) / 86400)
    }
}

/// Signed whole days from `now` to `expiration`, truncated toward zero.
pub open spec fn spec_day_delta(expiration: int, now: int) -> int {
    spec_days_of_secs(expiration - now)
}

/// The firing rule: the action fires exactly when the configured threshold
/// is at or above the remaining whole days.
pub open spec fn spec_fires(before: int, diff_num_days: int) -> bool {
    before >= diff_num_days
}

/// The exact decision for one expiration text at one moment: the text's
/// parse outcome, and on success the firing rule applied to the whole-day
/// delta.
pub open spec fn spec_decision(s: Seq<char>, now: int, before: int) -> Result<
    Decision,
    ParseError,
> {
    match spec_parse_expiration(s) {
        Err(e) => Err(e),
        Ok(t) => {
            let delta = spec_day_delta(spec_epoch_seconds(t), now);
            if spec_fires(before, delta) {
                Ok(Decision::Fire { diff_num_days: delta as i64 })
            } else {
                Ok(Decision::Wait { diff_num_days: delta as i64 })
            }
        },
    }
}

/// Signed whole days from `now_secs` to `expiration_secs`, truncated
/// toward zero.
pub fn day_delta(expiration_secs: i64, now_secs: i64) -> (r: i64)
    ensures
        r as int == spec_day_delta(expiration_secs as int, now_secs as int),
{
    let diff: i128 = expiration_secs as i128 - now_secs as i128;
    if diff >= 0 {
        let q: i128 = diff / 86400;
        proof {
            lemma_div_nonincreasing(diff as int, 86400);
            lemma_div_is_ordered(0, diff as int, 86400);
        }
        q as i64
    } else {
        let neg: i128 = -diff;
        let q: i128 = neg / 86400;
        proof {
            lemma_div_nonincreasing(neg as int, 86400);
            lemma_div_is_ordered(0, neg as int, 86400);
        }
        -(q as i64)
    }
}

/// Exec counterpart of [`spec_fires`].
pub fn decide_fire(before: u32, diff_num_days: i64) -> (r: bool)
    ensures
        r == spec_fires(before as int, diff_num_days as int),
{
    before as i64 >= diff_num_days
}

/// Decide one cycle from the fetched expiration text, the current time in
/// epoch seconds, and the configured threshold.
pub fn evaluate(raw: &str, now_secs: i64, before: u32) -> (r: Result<Decision, ParseError>)
    ensures
        r == spec_decision(raw@, now_secs as int, before as int),
        r matches Ok(Decision::Fire { diff_num_days }) ==> (before as int) >= (diff_num_days as int),
        r matches Ok(Decision::Wait { diff_num_days }) ==> (before as int) < (diff_num_days as int),
{
    match parse_expiration(raw) {
        Err(e) => Err(e),
        Ok(t) => {
            let expiration_secs = t.epoch_seconds();
            let diff_num_days = day_delta(expiration_secs, now_secs);
            if decide_fire(before, diff_num_days) {
                Ok(Decision::Fire { diff_num_days })
            } else {
                Ok(Decision::Wait { diff_num_days })
            }
        },
    }
}

/// Fold the launched command's own result into the cycle's outcome: the
/// cycle stays a fired, non-fatal one whatever the command returned, so an
/// action failure can never stop the monitoring loop.
pub fn record_action(diff_num_days: i64, run_result: &Result<(), String>) -> (o: CycleOutcome)
    ensures
        o == (CycleOutcome::Fired { diff_num_days, action_ok: run_result is Ok }),
{
    CycleOutcome::Fired { diff_num_days, action_ok: run_result.is_ok() }
}

/// Relies on chrono's `Utc::now` and `DateTime::timestamp`: the current
/// moment, as whole seconds since the Unix epoch. Nothing is promised of
/// the reading: every caller must work for any value. Aborts if the system
/// clock reads before the epoch, as chrono's `Utc::now` does.
#[verifier::external_body]
fn now_epoch_seconds() -> i64 {
    chrono::Utc::now().timestamp()
}

/// One monitoring cycle: fetch the certificate's expiration text, read it,
/// and fire the configured command if the threshold is reached.
///
/// A fetch or parse failure is the cycle's error, for the caller to treat
/// as fatal; a failed command launch is recorded in the outcome and is
/// never an error. A reported outcome is always consistent with the firing
/// rule for the day delta it carries.
pub fn try_launch_cmd<S: OpenSSHCmd, P: Process>(openssl_wrapper: &S, process: &P, cmd: &Cmd) -> (r:
    Result<CycleOutcome, String>)
    ensures
        r matches Ok(CycleOutcome::Fired { diff_num_days, .. }) ==> (cmd.before as int)
            >= (diff_num_days as int),
        r matches Ok(CycleOutcome::Waited { diff_num_days }) ==> (cmd.before as int) < (diff_num_days
            as int),
{
    let raw = match openssl_wrapper.get_expiration_cert(cmd.ca.as_str()) {
        Err(e) => {
            return Err(e);
        },
        Ok(raw) => raw,
    };
    let now_secs = now_epoch_seconds();
    match evaluate(raw.as_str(), now_secs, cmd.before) {
        Err(parse_error) => Err(parse_error.message()),
        Ok(Decision::Fire { diff_num_days }) => {
            let run_result = process.execute_script(cmd);
            Ok(record_action(diff_num_days, &run_result))
        },
        Ok(Decision::Wait { diff_num_days }) => Ok(CycleOutcome::Waited { diff_num_days }),
    }
}

} // verus!
