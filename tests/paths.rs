use agent_desk::paths::{
    binary_names, fallback_search_path, find_claude_binary, join_path, login_shells,
    nonempty_output, projects_base_dir, split_list, Platform,
};

#[test]
fn join_inserts_one_separator() {
    assert_eq!(join_path(Platform::Linux, "/home/u", "bin"), "/home/u/bin");
    assert_eq!(join_path(Platform::Linux, "/home/u/", "bin"), "/home/u/bin");
    assert_eq!(join_path(Platform::Linux, "", "agent"), "agent");
    assert_eq!(join_path(Platform::Windows, "C:\\Users\\u", "bin"), "C:\\Users\\u\\bin");
    assert_eq!(join_path(Platform::Windows, "C:/Users/u/", "bin"), "C:/Users/u/bin");
}

#[test]
fn split_keeps_empty_pieces() {
    assert_eq!(split_list("/a:/b", ':'), vec!["/a", "/b"]);
    assert_eq!(split_list("", ':'), vec![""]);
    assert_eq!(split_list("/a::/b:", ':'), vec!["/a", "", "/b", ""]);
}

#[test]
fn shells_per_platform() {
    assert!(login_shells(Platform::Windows).is_empty());
    assert_eq!(login_shells(Platform::MacOs), vec!["/bin/zsh", "/bin/bash"]);
    assert_eq!(login_shells(Platform::Linux), vec!["/bin/bash", "/bin/zsh", "/bin/sh"]);
}

#[test]
fn home_variable_per_platform() {
    assert_eq!(Platform::Windows.home_variable(), "USERPROFILE");
    assert_eq!(Platform::Linux.home_variable(), "HOME");
    assert_eq!(Platform::MacOs.home_variable(), "HOME");
}

#[test]
fn shell_output_is_trimmed() {
    assert_eq!(nonempty_output(true, "  /usr/bin:/bin\n"), Some("/usr/bin:/bin".to_string()));
    assert_eq!(nonempty_output(true, " \n\t"), None);
    assert_eq!(nonempty_output(false, "/usr/bin"), None);
}

#[test]
fn fallback_on_linux() {
    let r = fallback_search_path(Platform::Linux, Some("/home/u"), "/usr/bin", "");
    assert_eq!(r, "/home/u/.local/bin:/home/u/.cargo/bin:/usr/local/bin:/usr/bin");
}

#[test]
fn fallback_on_macos() {
    let r = fallback_search_path(Platform::MacOs, Some("/Users/u"), "/usr/bin", "");
    assert_eq!(
        r,
        "/Users/u/.local/bin:/Users/u/.cargo/bin:/Users/u/.nvm/versions/node:/usr/local/bin:/opt/homebrew/bin:/usr/bin"
    );
}

#[test]
fn fallback_on_windows() {
    let r = fallback_search_path(
        Platform::Windows,
        Some("C:\\Users\\u"),
        "C:\\Windows",
        "C:\\Users\\u\\AppData\\Roaming",
    );
    assert_eq!(
        r,
        "C:\\Users\\u\\AppData\\Roaming\\npm;C:\\Users\\u\\AppData\\Roaming;C:\\Windows"
    );
}

#[test]
fn fallback_without_home_is_current() {
    assert_eq!(fallback_search_path(Platform::Linux, None, "/usr/bin", ""), "/usr/bin");
}

#[test]
fn binary_names_per_platform() {
    assert_eq!(binary_names(Platform::Linux, "agent"), vec!["agent"]);
    assert_eq!(
        binary_names(Platform::Windows, "agent"),
        vec!["agent.exe", "agent.cmd", "agent.ps1", "agent"]
    );
}

#[test]
fn finds_first_present_directory() {
    let present = |p: &str| p == "/opt/b/agent" || p == "/opt/c/agent";
    let r = find_claude_binary(Platform::Linux, "agent", "/opt/a:/opt/b:/opt/c", &present);
    assert_eq!(r, Some("/opt/b/agent".to_string()));
}

#[test]
fn tries_names_within_a_directory_in_order() {
    let present = |p: &str| p == "C:\\bin\\agent.cmd" || p == "C:\\bin\\agent";
    let r = find_claude_binary(Platform::Windows, "agent", "C:\\tools;C:\\bin", &present);
    assert_eq!(r, Some("C:\\bin\\agent.cmd".to_string()));
}

#[test]
fn reports_missing_binary() {
    let asked = std::cell::RefCell::new(Vec::new());
    let present = |p: &str| {
        asked.borrow_mut().push(p.to_string());
        false
    };
    assert_eq!(find_claude_binary(Platform::Linux, "agent", "/a:/b", &present), None);
    assert_eq!(*asked.borrow(), vec!["/a/agent", "/b/agent"]);
}

#[test]
fn base_dir_under_documents() {
    assert_eq!(
        projects_base_dir(Platform::Linux, Some("/home/u")),
        Ok("/home/u/Documents/CC-Projects".to_string())
    );
    assert_eq!(
        projects_base_dir(Platform::Linux, None),
        Err("Cannot find home directory".to_string())
    );
}
