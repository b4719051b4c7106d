use agent_desk::listing::{list_project_files, DirEntryInfo};

fn entry(name: &str, is_dir: bool) -> DirEntryInfo {
    DirEntryInfo { name: name.to_string(), is_dir }
}

fn tree(rel: &str) -> Result<Vec<DirEntryInfo>, String> {
    match rel {
        "" => Ok(vec![
            entry("src", true),
            entry("node_modules", true),
            entry("README.md", false),
            entry(".git", true),
            entry("a\\b", false),
        ]),
        "src" => Ok(vec![entry("main.rs", false), entry("util", true)]),
        "src/util" => Ok(vec![entry("deep", true)]),
        "src/util/deep" => Ok(vec![entry("deeper", true)]),
        "src/util/deep/deeper" => Ok(vec![entry("x.rs", false)]),
        other => Err(format!("unexpected read of {}", other)),
    }
}

#[test]
fn lists_in_depth_first_order_with_cap() {
    let files = list_project_files(&tree).unwrap();
    assert_eq!(
        files,
        vec![
            "src",
            "src/main.rs",
            "src/util",
            "src/util/deep",
            "src/util/deep/deeper",
            "README.md",
            "a/b",
        ]
    );
}

#[test]
fn read_error_is_returned() {
    let read = |rel: &str| {
        if rel.is_empty() {
            Ok(vec![entry("locked", true)])
        } else {
            Err("permission denied".to_string())
        }
    };
    assert_eq!(list_project_files(&read), Err("permission denied".to_string()));
}

#[test]
fn empty_project_lists_nothing() {
    let read = |_: &str| Ok(Vec::new());
    assert_eq!(list_project_files(&read), Ok(Vec::new()));
}

#[test]
fn error_below_depth_cap_is_never_reached() {
    let read = |rel: &str| match rel {
        "" => Ok(vec![entry("a", true)]),
        "a" => Ok(vec![entry("b", true)]),
        "a/b" => Ok(vec![entry("c", true)]),
        "a/b/c" => Ok(vec![entry("d", true)]),
        _ => Err("too deep".to_string()),
    };
    assert_eq!(
        list_project_files(&read),
        Ok(vec!["a".to_string(), "a/b".to_string(), "a/b/c".to_string(), "a/b/c/d".to_string()])
    );
}

#[test]
fn nested_error_is_returned_unchanged() {
    let read = |rel: &str| match rel {
        "" => Ok(vec![entry("ok.txt", false), entry("a", true), entry("later", true)]),
        "a" => Err("a: denied".to_string()),
        _ => Err("should not be read".to_string()),
    };
    assert_eq!(list_project_files(&read), Err("a: denied".to_string()));
}
