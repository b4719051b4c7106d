use agent_desk::run::{agent_environment, append_line, final_output, prompt_args};

fn pair(k: &str, v: &str) -> (String, String) {
    (k.to_string(), v.to_string())
}

#[test]
fn args_without_approval() {
    assert_eq!(prompt_args("fix it", None), vec!["-p", "fix it"]);
    assert_eq!(prompt_args("fix it", Some(false)), vec!["-p", "fix it"]);
}

#[test]
fn args_with_approval() {
    assert_eq!(
        prompt_args("go", Some(true)),
        vec!["-p", "go", "--dangerously-skip-permissions"]
    );
}

#[test]
fn environment_drops_session_vars_and_sets_path() {
    let vars = vec![
        pair("HOME", "/home/u"),
        pair("CLAUDECODE", "1"),
        pair("PATH", "/usr/bin"),
        pair("CLAUDE_CODE_SESSION", "s"),
        pair("CLAUDE_CODE_ENTRY_POINT", "cli"),
        pair("CLAUDE_CODE_PACKAGE_DIR", "/x"),
        pair("LANG", "C"),
    ];
    assert_eq!(
        agent_environment(vars, "/a:/b".to_string()),
        vec![pair("HOME", "/home/u"), pair("LANG", "C"), pair("PATH", "/a:/b")]
    );
}

#[test]
fn lines_are_collected_with_breaks() {
    let mut s = String::new();
    append_line(&mut s, "one");
    append_line(&mut s, "");
    append_line(&mut s, "two");
    assert_eq!(s, "one\n\ntwo\n");
}

#[test]
fn output_on_success_is_trimmed_stdout() {
    assert_eq!(final_output(true, "\nanswer\n", "noise", "Agent CLI"), "answer");
    assert_eq!(final_output(false, "partial\n", "err", "Agent CLI"), "partial");
}

#[test]
fn output_on_silent_failure() {
    assert_eq!(final_output(false, " \n", " auth required \n", "Agent CLI"), "auth required");
    assert_eq!(final_output(false, "", "", "Agent CLI"), "Agent CLI exited with an error.");
}
