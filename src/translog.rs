//! The conversation with the transparency-log client program: which command
//! to run next, and what its exit status means.

use vstd::prelude::*;
use crate::error::Error;
use crate::text::{chars_of, string_of};

verus! {

/// A run of the log client.
#[derive(Debug, Clone, Copy, PartialEq, Eq, Structural)]
pub enum LogCommand {
    /// Ask whether the log holds the signature.
    Verify,
    /// Record the signature in the log.
    Upload,
}

/// Where the log check stands while a command runs.
#[derive(Debug, Clone, Copy, PartialEq, Eq, Structural)]
pub enum LogPhase {
    /// The first lookup.
    Checking,
    /// The lookup missed; the signature is being uploaded.
    Uploading,
    /// The upload went through; the final lookup.
    Rechecking,
}

/// What follows the exit of a log command.
#[derive(Debug, Clone, Copy, PartialEq, Eq, Structural)]
pub enum LogStep {
    /// Run `command`, then continue from `phase`.
    Run { phase: LogPhase, command: LogCommand },
    /// The log holds the signature.
    Confirmed,
    /// The log could not be brought to hold the signature.
    Failed(Error),
}

/// The command that a phase runs.
pub open spec fn phase_command(p: LogPhase) -> LogCommand {
    match p {
        LogPhase::Uploading => LogCommand::Upload,
        _ => LogCommand::Verify,
    }
}

/// Lookup first; on a miss, upload once and look up again, and a failure of
/// either of those two ends the check.
pub open spec fn log_transition(p: LogPhase, exited_ok: bool) -> LogStep {
    match p {
        LogPhase::Checking => if exited_ok {
            LogStep::Confirmed
        } else {
            LogStep::Run { phase: LogPhase::Uploading, command: LogCommand::Upload }
        },
        LogPhase::Uploading => if exited_ok {
            LogStep::Run { phase: LogPhase::Rechecking, command: LogCommand::Verify }
        } else {
            LogStep::Failed(Error::LogNotFound)
        },
        LogPhase::Rechecking => if exited_ok {
            LogStep::Confirmed
        } else {
            LogStep::Failed(Error::LogUnavailable)
        },
    }
}

/// The step after the command of phase `p` exited, successfully or not.
/// Only a successful lookup confirms the signature.
pub fn log_next(p: LogPhase, exited_ok: bool) -> (r: LogStep)
    ensures
        r == log_transition(p, exited_ok),
        r is Confirmed ==> exited_ok && phase_command(p) == LogCommand::Verify,
        r matches LogStep::Run { phase, command } ==> command == phase_command(phase),
{
    match p {
        LogPhase::Checking => if exited_ok {
            LogStep::Confirmed
        } else {
            LogStep::Run { phase: LogPhase::Uploading, command: LogCommand::Upload }
        },
        LogPhase::Uploading => if exited_ok {
            LogStep::Run { phase: LogPhase::Rechecking, command: LogCommand::Verify }
        } else {
            LogStep::Failed(Error::LogNotFound)
        },
        LogPhase::Rechecking => if exited_ok {
            LogStep::Confirmed
        } else {
            LogStep::Failed(Error::LogUnavailable)
        },
    }
}

/// The name of the log client program.
pub fn log_program() -> (r: String)
    ensures
        r@ == "rekor-cli"@,
{
    String::from_str("rekor-cli")
}

/// The views of a sequence of strings.
pub open spec fn string_views(v: Seq<String>) -> Seq<Seq<char>> {
    v.map_values(|s: String| s@)
}

/// The arguments of a log client run: the action, the minisign key format,
/// the key and signature files, the artifact read from standard input, and
/// JSON output for a lookup.
pub open spec fn log_args_spec(c: LogCommand, key_path: Seq<char>, sig_path: Seq<char>) -> Seq<Seq<char>> {
    let head = seq![
        if c == LogCommand::Verify { "verify"@ } else { "upload"@ },
        "--pki-format=minisign"@,
        "--public-key"@,
        key_path,
        "--artifact"@,
        "/dev/stdin"@,
        "--signature"@,
        sig_path,
    ];
    if c == LogCommand::Verify {
        head + seq!["--format"@, "json"@]
    } else {
        head
    }
}

/// The argument list for running `c` with the key and signature stored at
/// the given paths.
pub fn log_cli_args(c: LogCommand, key_path: &str, sig_path: &str) -> (r: Vec<String>)
    ensures
        string_views(r@) == log_args_spec(c, key_path@, sig_path@),
{
    let mut r: Vec<String> = Vec::new();
    let action = match c {
        LogCommand::Verify => String::from_str("verify"),
        LogCommand::Upload => String::from_str("upload"),
    };
    r.push(action);
    r.push(String::from_str("--pki-format=minisign"));
    r.push(String::from_str("--public-key"));
    r.push(string_of(chars_of(key_path).as_slice()));
    r.push(String::from_str("--artifact"));
    r.push(String::from_str("/dev/stdin"));
    r.push(String::from_str("--signature"));
    r.push(string_of(chars_of(sig_path).as_slice()));
    if c == LogCommand::Verify {
        r.push(String::from_str("--format"));
        r.push(String::from_str("json"));
    }
    assert(string_views(r@) =~= log_args_spec(c, key_path@, sig_path@));
    r
}

} // verus!
