use shell_supervisor::worker::{
    crash_exit_code, daemon_args, port_in_use_message, watchdog_args, worker_exited,
    CrashResponse, BINARIES_PATH_VAR, CRASH_MESSAGE, CRASH_TITLE, PORT_IN_USE_TITLE, QUIT_LABEL,
    RETRY_LABEL, UNKNOWN_EXIT_CODE, WATCHDOG_SIDECAR, WORKER_SIDECAR,
};

#[test]
fn worker_command_line() {
    let args = daemon_args("127.0.0.1", "7938", "00112233445566778899aabbccddeeff");
    assert_eq!(
        args,
        vec![
            "daemon",
            "--http-addr",
            "127.0.0.1:7938",
            "--http-token",
            "00112233445566778899aabbccddeeff"
        ]
    );
    assert_eq!(WORKER_SIDECAR, "syftboxd");
    assert_eq!(BINARIES_PATH_VAR, "SYFTBOX_DESKTOP_BINARIES_PATH");
}

#[test]
fn worker_command_line_takes_its_parts_as_they_are() {
    let args = daemon_args("", "", "");
    assert_eq!(args, vec!["daemon", "--http-addr", ":", "--http-token", ""]);
    let args = daemon_args("::1", "80", "a b");
    assert_eq!(args[2], "::1:80");
    assert_eq!(args[4], "a b");
}

#[test]
fn watchdog_targets_one_group() {
    assert_eq!(watchdog_args(&vec![4242]), vec!["--targets", "4242"]);
    assert_eq!(WATCHDOG_SIDECAR, "process-wick");
}

#[test]
fn watchdog_targets_several_groups() {
    assert_eq!(watchdog_args(&vec![1, 20, 300]), vec!["--targets", "1,20,300"]);
    assert_eq!(watchdog_args(&vec![0, u32::MAX]), vec!["--targets", "0,4294967295"]);
}

#[test]
fn watchdog_without_targets() {
    assert_eq!(watchdog_args(&vec![]), vec!["--targets", ""]);
}

#[test]
fn worker_exit_code_7_ends_the_shell_with_7() {
    assert_eq!(crash_exit_code(Some(7)), 7);
}

#[test]
fn worker_exit_is_answered_by_one_dialog_and_the_same_exit_code() {
    assert_eq!(
        worker_exited(Some(7)),
        CrashResponse {
            title: "Error",
            message: "SyftBox daemon exited unexpectedly. Please check the logs for more information.",
            exit_code: 7,
        }
    );
    assert_eq!(worker_exited(None).exit_code, 1);
    assert_eq!(worker_exited(Some(0)).exit_code, 0);
}

#[test]
fn worker_without_exit_code_ends_the_shell_with_1() {
    assert_eq!(crash_exit_code(None), 1);
    assert_eq!(UNKNOWN_EXIT_CODE, 1);
}

#[test]
fn worker_exit_codes_pass_through() {
    for code in [0, 1, -1, 255, i32::MIN, i32::MAX] {
        assert_eq!(crash_exit_code(Some(code)), code);
    }
}

#[test]
fn dialog_texts() {
    assert_eq!(
        port_in_use_message("7938"),
        "Syftbox daemon port 7938 is already in use. Please close the app that is using it and try again."
    );
    assert_eq!(PORT_IN_USE_TITLE, "SyftBox daemon port in use");
    assert_eq!(QUIT_LABEL, "Quit");
    assert_eq!(RETRY_LABEL, "Try Again");
    assert_eq!(CRASH_TITLE, "Error");
    assert_eq!(
        CRASH_MESSAGE,
        "SyftBox daemon exited unexpectedly. Please check the logs for more information."
    );
}
