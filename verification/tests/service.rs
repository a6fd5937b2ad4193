use portapi::service::{
    command_line, get_service_manager, get_sudo_cmd, systemctl, trim_newline, EmptyServiceManager,
    FileFacts, Inquiry, Invocation, Output, ServiceManager, ServiceManagerError, StatusResult,
    SudoCommand, SystemctlError, SystemdServiceManager, Verb, PORTMASTER_UNIT, SYSTEMCTL,
    SYSTEMCTL_PATHS,
};

fn trimmed(text: &str) -> String {
    let mut s = text.to_string();
    trim_newline(&mut s);
    s
}

fn failed(output: &str) -> Result<String, SystemctlError> {
    Err(SystemctlError::Other("exit status: 3".to_string(), output.to_string()))
}

fn run_to_end(mut inquiry: Inquiry, mut outcomes: Vec<Result<String, SystemctlError>>) -> (
    Vec<Invocation>,
    Result<StatusResult, ServiceManagerError>,
) {
    outcomes.reverse();
    let mut asked = Vec::new();
    while let Some(invocation) = inquiry.pending() {
        asked.push(invocation);
        inquiry = inquiry.proceed(outcomes.pop().expect("an outcome for each command"));
    }
    assert!(outcomes.is_empty());
    (asked, inquiry.result().expect("an inquiry without a pending command has ended"))
}

const ASK: Invocation = Invocation { verb: Verb::IsActive, as_root: false };
const LOOK: Invocation = Invocation { verb: Verb::Cat, as_root: false };
const START: Invocation = Invocation { verb: Verb::Start, as_root: true };

#[test]
fn constants_of_the_service() {
    assert_eq!(SYSTEMCTL, "systemctl");
    assert_eq!(PORTMASTER_UNIT, "portmaster.service");
    assert_eq!(
        SYSTEMCTL_PATHS,
        ["/sbin/systemctl", "/bin/systemctl", "/usr/sbin/systemctl", "/usr/bin/systemctl"]
    );
    assert_eq!(Verb::Start.as_str(), "start");
    assert_eq!(Verb::IsActive.as_str(), "is-active");
    assert_eq!(Verb::Cat.as_str(), "cat");
}

#[test]
fn trim_newline_takes_one_line_end() {
    assert_eq!(trimmed("active\n"), "active");
    assert_eq!(trimmed("active\r\n"), "active");
    assert_eq!(trimmed("active"), "active");
    assert_eq!(trimmed("active\n\n"), "active\n");
    assert_eq!(trimmed("active\r"), "active\r");
    assert_eq!(trimmed("active\n\r"), "active\n\r");
    assert_eq!(trimmed("active\r\r\n"), "active\r");
    assert_eq!(trimmed("\n"), "");
    assert_eq!(trimmed("\r\n"), "");
    assert_eq!(trimmed(""), "");
    assert_eq!(trimmed("äö\n"), "äö");
}

#[test]
fn systemctl_reads_the_output_of_a_successful_command() {
    let output = Output {
        success: true,
        status: "exit status: 0".to_string(),
        stdout: Ok("active\n".to_string()),
        stderr: Ok("ignored".to_string()),
    };
    assert_eq!(systemctl(output), Ok("active\n".to_string()));
    let output = Output {
        success: true,
        status: "exit status: 0".to_string(),
        stdout: Err("invalid utf-8 sequence of 1 bytes from index 0".to_string()),
        stderr: Ok("".to_string()),
    };
    assert_eq!(
        systemctl(output),
        Err(SystemctlError::FromUtf8Error(
            "invalid utf-8 sequence of 1 bytes from index 0".to_string()
        ))
    );
}

#[test]
fn systemctl_reads_the_complaint_of_a_failed_command() {
    let output = |stdout: Result<&str, &str>, stderr: Result<&str, &str>| Output {
        success: false,
        status: "exit status: 3".to_string(),
        stdout: stdout.map(|s| s.to_string()).map_err(|s| s.to_string()),
        stderr: stderr.map(|s| s.to_string()).map_err(|s| s.to_string()),
    };
    let other = |text: &str| Err(SystemctlError::Other("exit status: 3".to_string(), text.to_string()));
    assert_eq!(systemctl(output(Ok("out"), Ok("err"))), other("err"));
    assert_eq!(systemctl(output(Ok("inactive\n"), Ok(""))), other("inactive\n"));
    assert_eq!(systemctl(output(Ok("out"), Ok(" \t\r\n"))), other("out"));
    assert_eq!(systemctl(output(Ok("out"), Err("no text"))), other("out"));
    assert_eq!(systemctl(output(Ok("\u{a0}\u{2003}"), Ok("\u{3000}"))), other("Failed to run `systemctl`"));
    assert_eq!(systemctl(output(Err("no text"), Err("no text"))), other("Failed to run `systemctl`"));
    assert_eq!(systemctl(output(Ok(""), Ok(""))), other("Failed to run `systemctl`"));
    assert_eq!(systemctl(output(Ok(""), Ok(" x "))), other(" x "));
}

#[test]
fn systemctl_error_descriptions() {
    assert_eq!(SystemctlError::FromUtf8Error("bad bytes".to_string()).to_string(), "bad bytes");
    assert_eq!(SystemctlError::IoError("No such file".to_string()).to_string(), "No such file");
    assert_eq!(
        SystemctlError::Other("exit status: 3".to_string(), "inactive\n".to_string()).to_string(),
        "exit status: 3 output=inactive\n"
    );
}

#[test]
fn sudo_command_is_picked_in_order() {
    assert_eq!(get_sudo_cmd(true, true), Some(SudoCommand::Pkexec));
    assert_eq!(get_sudo_cmd(true, false), Some(SudoCommand::Pkexec));
    assert_eq!(get_sudo_cmd(false, true), Some(SudoCommand::Gksu));
    assert_eq!(get_sudo_cmd(false, false), None);
}

#[test]
fn command_line_as_user_and_as_root() {
    let args = || vec!["is-active".to_string(), "portmaster.service".to_string()];
    let line = command_line(None, "systemctl", args());
    assert_eq!(line.program, "systemctl");
    assert_eq!(line.args, vec!["is-active", "portmaster.service"]);
    let line = command_line(Some(SudoCommand::Pkexec), "systemctl", args());
    assert_eq!(line.program, "/usr/bin/pkexec");
    assert_eq!(
        line.args,
        vec!["--disable-internal-agent", "systemctl", "is-active", "portmaster.service"]
    );
    let line = command_line(Some(SudoCommand::Gksu), "systemctl", args());
    assert_eq!(line.program, "/usr/bin/gksudo");
    assert_eq!(
        line.args,
        vec![
            "--message=Please enter your password:",
            "--sudo-mode",
            "systemctl",
            "is-active",
            "portmaster.service"
        ]
    );
    let line = command_line(Some(SudoCommand::Pkexec), "x", Vec::new());
    assert_eq!(line.args, vec!["--disable-internal-agent", "x"]);
}

#[test]
fn is_installed_wants_a_program_at_one_place() {
    let file = |mode: u32| Some(FileFacts { is_file: true, mode });
    let dir = |mode: u32| Some(FileFacts { is_file: false, mode });
    assert!(!SystemdServiceManager::is_installed(&vec![]));
    assert!(!SystemdServiceManager::is_installed(&vec![None, None, None, None]));
    assert!(SystemdServiceManager::is_installed(&vec![None, file(0o755), None, None]));
    assert!(SystemdServiceManager::is_installed(&vec![None, None, None, file(0o100644 | 0o001)]));
    assert!(SystemdServiceManager::is_installed(&vec![file(0o010)]));
    assert!(!SystemdServiceManager::is_installed(&vec![file(0o644), file(0o666), dir(0o755)]));
    assert!(SystemdServiceManager::is_installed(&vec![file(0o644), dir(0o755), file(0o100)]));
    assert!(FileFacts { is_file: true, mode: 0o100 }.is_program());
    assert!(!FileFacts { is_file: true, mode: 0o666 }.is_program());
    assert!(!FileFacts { is_file: false, mode: 0o777 }.is_program());
}

#[test]
fn service_manager_is_that_of_systemd_on_linux() {
    assert_eq!(get_service_manager(true, true), Ok(SystemdServiceManager {}));
    assert_eq!(
        get_service_manager(true, false),
        Err(ServiceManagerError::UnsupportedServiceManager)
    );
    assert_eq!(
        get_service_manager(false, true),
        Err(ServiceManagerError::UnsupportedOperatingSystem)
    );
    assert_eq!(
        get_service_manager(false, false),
        Err(ServiceManagerError::UnsupportedOperatingSystem)
    );
}

#[test]
fn status_of_a_running_service() {
    let manager = SystemdServiceManager {};
    let (asked, result) = run_to_end(manager.status(), vec![Ok("active\n".to_string())]);
    assert_eq!(asked, vec![ASK]);
    assert_eq!(result, Ok(StatusResult::Running));
    let (_, result) = run_to_end(manager.status(), vec![Ok("active".to_string())]);
    assert_eq!(result, Ok(StatusResult::Running));
}

#[test]
fn status_with_an_unexpected_answer() {
    let manager = SystemdServiceManager {};
    let (asked, result) = run_to_end(manager.status(), vec![Ok("activating\n".to_string())]);
    assert_eq!(asked, vec![ASK]);
    assert_eq!(
        result,
        Err(ServiceManagerError::Other("exit status: 0".to_string(), "activating\n".to_string()))
    );
}

#[test]
fn status_of_a_stopped_service() {
    let manager = SystemdServiceManager {};
    let (asked, result) = run_to_end(manager.status(), vec![failed("inactive\n")]);
    assert_eq!(asked, vec![ASK]);
    assert_eq!(result, Ok(StatusResult::Stopped));
}

#[test]
fn status_of_a_service_that_is_not_installed() {
    let manager = SystemdServiceManager {};
    let (asked, result) = run_to_end(
        manager.status(),
        vec![
            failed("unknown\n"),
            failed("No files found for portmaster.service.\n"),
        ],
    );
    assert_eq!(asked, vec![ASK, LOOK]);
    assert_eq!(result, Ok(StatusResult::NotFound));
}

#[test]
fn status_with_a_failed_lookup() {
    let manager = SystemdServiceManager {};
    let (_, result) = run_to_end(
        manager.status(),
        vec![failed("failed\n"), failed("Access denied")],
    );
    assert_eq!(
        result,
        Err(ServiceManagerError::Other("exit status: 3".to_string(), "Access denied".to_string()))
    );
    let (_, result) = run_to_end(
        manager.status(),
        vec![failed("failed\n"), Err(SystemctlError::IoError("not there".to_string()))],
    );
    assert_eq!(result, Err(ServiceManagerError::IoError("not there".to_string())));
    let (_, result) = run_to_end(
        manager.status(),
        vec![failed("failed\n"), Err(SystemctlError::FromUtf8Error("no text".to_string()))],
    );
    assert_eq!(result, Err(ServiceManagerError::FromUtf8Error("no text".to_string())));
}

#[test]
fn status_after_a_lookup_that_succeeds() {
    let manager = SystemdServiceManager {};
    let (asked, result) = run_to_end(
        manager.status(),
        vec![failed("failed\n"), Ok("[Unit]\n".to_string())],
    );
    assert_eq!(asked, vec![ASK, LOOK]);
    assert_eq!(
        result,
        Err(ServiceManagerError::Other("exit status: 3".to_string(), "failed\n".to_string()))
    );
    let (_, result) = run_to_end(
        manager.status(),
        vec![Err(SystemctlError::IoError("inactive\n".to_string())), Ok("[Unit]\n".to_string())],
    );
    assert_eq!(result, Ok(StatusResult::Stopped));
    let (_, result) = run_to_end(
        manager.status(),
        vec![Err(SystemctlError::IoError("broken pipe".to_string())), Ok("[Unit]\n".to_string())],
    );
    assert_eq!(result, Err(ServiceManagerError::IoError("broken pipe".to_string())));
}

#[test]
fn start_asks_for_the_status_afterwards() {
    let manager = SystemdServiceManager {};
    let (asked, result) = run_to_end(
        manager.start(),
        vec![Ok("".to_string()), Ok("active\n".to_string())],
    );
    assert_eq!(asked, vec![START, ASK]);
    assert_eq!(result, Ok(StatusResult::Running));
    let (asked, result) = run_to_end(
        manager.start(),
        vec![Ok("".to_string()), failed("x"), failed("No files found for it")],
    );
    assert_eq!(asked, vec![START, ASK, LOOK]);
    assert_eq!(result, Ok(StatusResult::NotFound));
}

#[test]
fn start_that_fails_ends_the_inquiry() {
    let manager = SystemdServiceManager {};
    let (asked, result) = run_to_end(
        manager.start(),
        vec![Err(SystemctlError::IoError("failed to detect sudo command".to_string()))],
    );
    assert_eq!(asked, vec![START]);
    assert_eq!(
        result,
        Err(ServiceManagerError::IoError("failed to detect sudo command".to_string()))
    );
}

#[test]
fn an_inquiry_that_has_ended_stays_as_it_is() {
    let done = Inquiry::Done(Ok(StatusResult::Stopped));
    assert_eq!(done.pending(), None);
    let next = done.proceed(Ok("active".to_string()));
    assert_eq!(next, Inquiry::Done(Ok(StatusResult::Stopped)));
    assert_eq!(next.result(), Some(Ok(StatusResult::Stopped)));
    assert_eq!(Inquiry::Asking.result(), None);
}

#[test]
fn empty_service_manager_supports_nothing() {
    let manager = EmptyServiceManager();
    assert_eq!(
        manager.status(),
        Inquiry::Done(Err(ServiceManagerError::UnsupportedServiceManager))
    );
    assert_eq!(
        manager.start().result(),
        Some(Err(ServiceManagerError::UnsupportedServiceManager))
    );
}

#[test]
fn service_manager_error_of_a_command_error() {
    assert_eq!(
        ServiceManagerError::of(SystemctlError::Other("a".to_string(), "b".to_string())),
        ServiceManagerError::Other("a".to_string(), "b".to_string())
    );
    assert_eq!(
        ServiceManagerError::of(SystemctlError::IoError("a".to_string())),
        ServiceManagerError::IoError("a".to_string())
    );
    assert_eq!(
        ServiceManagerError::of(SystemctlError::FromUtf8Error("a".to_string())),
        ServiceManagerError::FromUtf8Error("a".to_string())
    );
}

#[test]
fn service_manager_error_descriptions() {
    assert_eq!(
        ServiceManagerError::UnsupportedServiceManager.to_string(),
        "unsupported service manager"
    );
    assert_eq!(
        ServiceManagerError::UnsupportedOperatingSystem.to_string(),
        "unsupported operating system"
    );
    assert_eq!(ServiceManagerError::FromUtf8Error("no text".to_string()).to_string(), "no text");
    assert_eq!(ServiceManagerError::IoError("not there".to_string()).to_string(), "not there");
    assert_eq!(
        ServiceManagerError::Other("signal: 9".to_string(), "killed".to_string()).to_string(),
        "signal: 9 output=killed"
    );
}
