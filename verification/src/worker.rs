//! Command lines of the worker and of its watchdog, and the response to the
//! worker's death.

use crate::decimal::{decimal, format_decimal};
use vstd::prelude::*;
use vstd::string::*;

verus! {

/// Name of the bundled worker executable.
pub const WORKER_SIDECAR: &'static str = "syftboxd";

/// Name of the bundled watchdog executable.
pub const WATCHDOG_SIDECAR: &'static str = "process-wick";

/// Environment variable that tells the worker where the shell's own
/// executables live.
pub const BINARIES_PATH_VAR: &'static str = "SYFTBOX_DESKTOP_BINARIES_PATH";

/// Exit code reported for a worker that ended without one.
pub const UNKNOWN_EXIT_CODE: i32 = 1;

/// Arguments of the worker: `daemon --http-addr <host>:<port> --http-token <token>`.
pub open spec fn worker_args(host: Seq<char>, port: Seq<char>, token: Seq<char>) -> Seq<Seq<char>> {
    seq!["daemon"@, "--http-addr"@, host + ":"@ + port, "--http-token"@, token]
}

/// Builds the worker's argument list from its connection parameters.
pub fn daemon_args(host: &str, port: &str, token: &str) -> (args: Vec<String>)
    ensures
        args.deep_view() == worker_args(host@, port@, token@),
{
    let mut addr = host.to_owned();
    addr.append(":");
    addr.append(port);
    let mut args: Vec<String> = Vec::new();
    args.push("daemon".to_owned());
    args.push("--http-addr".to_owned());
    args.push(addr);
    args.push("--http-token".to_owned());
    args.push(token.to_owned());
    assert(args.deep_view() =~= worker_args(host@, port@, token@));
    args
}

/// The ids in decimal, separated by commas.
pub open spec fn target_list(ids: Seq<u32>) -> Seq<char>
    decreases ids.len(),
{
    if ids.len() == 0 {
        Seq::empty()
    } else if ids.len() == 1 {
        decimal(ids[0] as nat)
    } else {
        target_list(ids.drop_last()) + ","@ + decimal(ids.last() as nat)
    }
}

/// Arguments of the watchdog: `--targets <id>[,<id>...]`.
pub open spec fn reaper_args(ids: Seq<u32>) -> Seq<Seq<char>> {
    seq!["--targets"@, target_list(ids)]
}

/// Builds the argument list of a watchdog that is to kill the process groups
/// `targets` once the shell is gone.
pub fn watchdog_args(targets: &Vec<u32>) -> (args: Vec<String>)
    ensures
        args.deep_view() == reaper_args(targets@),
{
    let mut list = String::new();
    let mut i: usize = 0;
    while i < targets.len()
        invariant
            i <= targets.len(),
            list@ == target_list(targets@.subrange(0, i as int)),
        decreases targets.len() - i,
    {
        let ghost before = targets@.subrange(0, i as int);
        let ghost after = targets@.subrange(0, i as int + 1);
        assert(after.drop_last() =~= before);
        assert(after.last() == targets@[i as int]);
        if i > 0 {
            list.append(",");
        }
        let numeral = format_decimal(targets[i] as u64);
        list.append(numeral.as_str());
        assert(list@ =~= target_list(after));
        i = i + 1;
    }
    assert(targets@.subrange(0, i as int) =~= targets@);
    let mut args: Vec<String> = Vec::new();
    args.push("--targets".to_owned());
    args.push(list);
    assert(args.deep_view() =~= reaper_args(targets@));
    args
}

/// Text of the dialog shown while the worker's port is taken.
pub open spec fn port_in_use_text(port: Seq<char>) -> Seq<char> {
    "Syftbox daemon port "@ + port
        + " is already in use. Please close the app that is using it and try again."@
}

/// Title of the dialog shown while the worker's port is taken.
pub const PORT_IN_USE_TITLE: &'static str = "SyftBox daemon port in use";

/// Label of the button that gives up on a contended port.
pub const QUIT_LABEL: &'static str = "Quit";

/// Label of the button that probes a contended port again.
pub const RETRY_LABEL: &'static str = "Try Again";

/// Builds the message of the contended-port dialog.
pub fn port_in_use_message(port: &str) -> (message: String)
    ensures
        message@ == port_in_use_text(port@),
{
    let mut message = "Syftbox daemon port ".to_owned();
    message.append(port);
    message.append(" is already in use. Please close the app that is using it and try again.");
    message
}

/// Title of the dialog shown when the worker has died.
pub const CRASH_TITLE: &'static str = "Error";

/// Message of the dialog shown when the worker has died.
pub const CRASH_MESSAGE: &'static str =
    "SyftBox daemon exited unexpectedly. Please check the logs for more information.";

/// The exit code the shell ends with after the worker has ended with
/// `worker_code`: the same code, or 1 where the worker left none.
pub open spec fn shell_exit_code(worker_code: Option<i32>) -> i32 {
    match worker_code {
        Some(code) => code,
        None => UNKNOWN_EXIT_CODE,
    }
}

/// Decides the shell's exit code once the worker is gone.
pub fn crash_exit_code(worker_code: Option<i32>) -> (code: i32)
    ensures
        code == shell_exit_code(worker_code),
{
    match worker_code {
        Some(code) => code,
        None => UNKNOWN_EXIT_CODE,
    }
}

/// The shell's response to the death of its worker: one blocking dialog,
/// then exit.
#[derive(Clone, Copy, Debug, PartialEq, Eq)]
pub struct CrashResponse {
    /// Title of the dialog.
    pub title: &'static str,
    /// Message of the dialog.
    pub message: &'static str,
    /// Exit code of the shell, once the dialog is dismissed.
    pub exit_code: i32,
}

/// Decides what follows the worker's exit with `worker_code`, if it left
/// one. The worker is never restarted: a silent restart could hide a worker
/// that keeps failing.
pub fn worker_exited(worker_code: Option<i32>) -> (response: CrashResponse)
    ensures
        response.title@ == CRASH_TITLE@,
        response.message@ == CRASH_MESSAGE@,
        response.exit_code == shell_exit_code(worker_code),
{
    CrashResponse {
        title: CRASH_TITLE,
        message: CRASH_MESSAGE,
        exit_code: crash_exit_code(worker_code),
    }
}

} // verus!
