use agent_desk::paths::Platform;
use agent_desk::project::{config_dir_name, markdown_stem, markdown_stems, project_slug, unique_project_dir};

#[test]
fn slug_lowercases_and_replaces() {
    assert_eq!(project_slug("My App"), "my-app");
    assert_eq!(project_slug("a!b-c"), "a_b-c");
    assert_eq!(project_slug("Café 2"), "café-2");
}

#[test]
fn empty_name_gets_default_slug() {
    assert_eq!(project_slug(""), "my-project");
}

#[test]
fn plain_directory_when_free() {
    let present = |_: &str| false;
    assert_eq!(
        unique_project_dir(Platform::Linux, "/p", "app", &present),
        Ok("/p/app".to_string())
    );
}

#[test]
fn numbered_directory_when_taken() {
    let present = |p: &str| p == "/p/app" || p == "/p/app-2" || p == "/p/app-3";
    assert_eq!(
        unique_project_dir(Platform::Linux, "/p", "app", &present),
        Ok("/p/app-4".to_string())
    );
}

#[test]
fn numbers_past_nine() {
    let present = |p: &str| {
        p == "/p/x" || (p.starts_with("/p/x-") && p[5..].parse::<u64>().map_or(false, |n| n < 12))
    };
    assert_eq!(unique_project_dir(Platform::Linux, "/p", "x", &present), Ok("/p/x-12".to_string()));
}

#[test]
fn stems_strip_every_md_suffix() {
    assert_eq!(markdown_stem("planner.md"), "planner");
    assert_eq!(markdown_stem("a.md.md"), "a");
    assert_eq!(markdown_stem("notes.txt"), "notes.txt");
    assert_eq!(markdown_stem(".md"), "");
}

#[test]
fn stems_keep_only_markdown() {
    let names = vec!["a.md".to_string(), "b.txt".to_string(), "c.md".to_string(), "md".to_string()];
    assert_eq!(markdown_stems(&names), vec!["a", "c"]);
    assert!(markdown_stems(&Vec::new()).is_empty());
}

#[test]
fn config_dir_is_dotted_program() {
    assert_eq!(config_dir_name("agent"), ".agent");
}

#[test]
fn slug_never_holds_path_syntax() {
    assert_eq!(project_slug("../a/b:c"), "___a_b_c");
    assert_eq!(project_slug("C:\\x.y"), "c__x_y");
}
