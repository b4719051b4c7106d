use agent_desk::paths::Platform;
use agent_desk::session::{
    install_outcome, install_status, installer_command, process_group_target, AppState,
    ChatMessage, ClaudeInstallStatus,
};

#[test]
fn state_starts_empty() {
    let s = AppState::new();
    assert_eq!(s.project_dir(), None);
    assert_eq!(s.child_pid, None);
    assert_eq!(s.require_project_dir(), Err("No project directory set".to_string()));
}

#[test]
fn set_project_dir_needs_a_directory() {
    let mut s = AppState::new();
    assert_eq!(
        s.set_project_dir("/tmp/file".to_string(), false),
        Err("Path is not a directory".to_string())
    );
    assert_eq!(s.project_dir(), None);
    assert_eq!(s.set_project_dir("/tmp/p".to_string(), true), Ok(()));
    assert_eq!(s.require_project_dir(), Ok("/tmp/p".to_string()));
    s.open_project("/tmp/q".to_string());
    assert_eq!(s.project_dir(), Some("/tmp/q".to_string()));
}

#[test]
fn child_pid_tracking() {
    let mut s = AppState::new();
    s.track_child(Some(42));
    s.track_child(None);
    assert_eq!(s.child_pid, Some(42));
    assert_eq!(s.take_child_pid(), Ok(42));
    assert_eq!(s.take_child_pid(), Err("No running process to stop".to_string()));
    s.track_child(Some(7));
    s.clear_child();
    assert_eq!(s.child_pid, None);
}

#[test]
fn group_target_negates_pid() {
    assert_eq!(process_group_target(1234), Some(-1234));
    assert_eq!(process_group_target(0), None);
    assert_eq!(process_group_target(0x8000_0000), None);
    assert_eq!(process_group_target(0x7fff_ffff), Some(-0x7fff_ffff));
}

#[test]
fn status_without_binary() {
    let s = install_status(None, None);
    assert!(!s.installed);
    assert_eq!(s.version, None);
    assert_eq!(s.path, None);
}

#[test]
fn status_with_version() {
    let s = install_status(
        Some("/bin/agent".to_string()),
        Some((true, "1.0.3 (Agent CLI)\n".to_string())),
    );
    assert!(s.installed);
    assert_eq!(s.version, Some("1.0.3 (Agent CLI)".to_string()));
    assert_eq!(s.path, Some("/bin/agent".to_string()));
    let failed = install_status(Some("/bin/agent".to_string()), Some((false, "1.0".to_string())));
    assert!(failed.installed);
    assert_eq!(failed.version, None);
}

#[test]
fn installer_per_platform() {
    let (prog, args) = installer_command(Platform::Linux, "https://example.com");
    assert_eq!(prog, "sh");
    assert_eq!(args, vec!["-c", "curl -fsSL https://example.com/install.sh | sh"]);
    let (prog, args) = installer_command(Platform::Windows, "https://example.com");
    assert_eq!(prog, "powershell");
    assert_eq!(
        args,
        vec!["-NoProfile", "-ExecutionPolicy", "Bypass", "-Command", "irm https://example.com/install.ps1 | iex"]
    );
}

fn status(installed: bool, version: Option<&str>) -> ClaudeInstallStatus {
    ClaudeInstallStatus { installed, version: version.map(|v| v.to_string()), path: None }
}

#[test]
fn install_failure_reports_stderr() {
    assert_eq!(
        install_outcome(false, "  curl: not found\n", &status(false, None), "Agent CLI"),
        Err("curl: not found".to_string())
    );
    assert_eq!(
        install_outcome(false, " \n", &status(false, None), "Agent CLI"),
        Err("Installation failed. Please try manual installation.".to_string())
    );
}

#[test]
fn install_needs_binary_afterwards() {
    assert_eq!(
        install_outcome(true, "", &status(false, None), "Agent CLI"),
        Err("Installation completed but Agent CLI was not found. You may need to restart the app.".to_string())
    );
}

#[test]
fn install_success_line() {
    assert_eq!(
        install_outcome(true, "warning", &status(true, Some("2.0.1")), "Agent CLI"),
        Ok("Agent CLI installed successfully! (2.0.1)".to_string())
    );
    assert_eq!(
        install_outcome(true, "", &status(true, None), "Agent CLI"),
        Ok("Agent CLI installed successfully! (unknown version)".to_string())
    );
}

#[test]
fn chat_message_holds_fields() {
    let m = ChatMessage {
        role: "user".to_string(),
        content: "hi".to_string(),
        agent: None,
        timestamp: 5,
    };
    assert_eq!(m.timestamp, 5);
    assert_eq!(m.role, "user");
}
