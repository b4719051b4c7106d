use agent_desk::analysis::{analyze_project, project_framework, project_languages, ProjectScan};

fn empty_scan() -> ProjectScan {
    ProjectScan {
        package_json: false,
        package_json_text: None,
        cargo_toml: false,
        requirements_txt: false,
        requirements_txt_text: None,
        pyproject_toml: false,
        pyproject_toml_text: None,
        setup_py: false,
        go_mod: false,
        pom_xml: false,
        pom_xml_text: None,
        build_gradle: false,
        gemfile: false,
        package_swift: false,
        config_dir: false,
        git_dir: false,
        agent_files: Vec::new(),
        skill_files: Vec::new(),
    }
}

#[test]
fn unknown_language_when_nothing_found() {
    assert_eq!(project_languages(&empty_scan()), vec!["Unknown"]);
}

#[test]
fn languages_in_fixed_order() {
    let mut s = empty_scan();
    s.package_swift = true;
    s.cargo_toml = true;
    s.setup_py = true;
    s.build_gradle = true;
    s.package_json = true;
    assert_eq!(
        project_languages(&s),
        vec!["JavaScript/TypeScript", "Rust", "Python", "Java", "Swift"]
    );
}

#[test]
fn next_wins_over_react() {
    let mut s = empty_scan();
    s.package_json = true;
    s.package_json_text = Some("{\"dependencies\":{\"react\":\"18\",\"next\":\"14\"}}".to_string());
    assert_eq!(project_framework(&s), Some("Next.js".to_string()));
}

#[test]
fn quoted_marker_needed() {
    let mut s = empty_scan();
    s.package_json = true;
    s.package_json_text = Some("{\"name\":\"react-tools\"}".to_string());
    assert_eq!(project_framework(&s), None);
}

#[test]
fn python_reads_pyproject_when_requirements_missing() {
    let mut s = empty_scan();
    s.pyproject_toml = true;
    s.pyproject_toml_text = Some("dependencies = [\"fastapi\"]".to_string());
    assert_eq!(project_framework(&s), Some("FastAPI".to_string()));
}

#[test]
fn requirements_take_precedence_over_pyproject() {
    let mut s = empty_scan();
    s.requirements_txt = true;
    s.requirements_txt_text = Some("requests\n".to_string());
    s.pyproject_toml = true;
    s.pyproject_toml_text = Some("django".to_string());
    assert_eq!(project_framework(&s), None);
}

#[test]
fn java_framework_overrides_javascript() {
    let mut s = empty_scan();
    s.package_json = true;
    s.package_json_text = Some("\"vue\"".to_string());
    s.pom_xml = true;
    s.pom_xml_text = Some("<artifactId>spring-boot</artifactId>".to_string());
    assert_eq!(project_framework(&s), Some("Spring".to_string()));
}

#[test]
fn suggestion_without_config_names_framework() {
    let mut s = empty_scan();
    s.package_json = true;
    s.package_json_text = Some("\"svelte\"".to_string());
    let a = analyze_project(&s, "Agent CLI");
    assert_eq!(
        a.suggestion,
        Some(
            "This looks like a Svelte project. Set up a dev team to get the most out of Agent CLI."
                .to_string()
        )
    );
    assert!(!a.has_claude_config);
}

#[test]
fn suggestion_without_config_names_language() {
    let mut s = empty_scan();
    s.go_mod = true;
    let a = analyze_project(&s, "Agent CLI");
    assert_eq!(
        a.suggestion,
        Some("This looks like a Go project. Set up a dev team to get the most out of Agent CLI.".to_string())
    );
}

#[test]
fn suggestion_for_empty_config() {
    let mut s = empty_scan();
    s.config_dir = true;
    s.agent_files = vec!["README.txt".to_string()];
    let a = analyze_project(&s, "Agent CLI");
    assert_eq!(
        a.suggestion,
        Some("Agent CLI config found but no agents or skills. Add a team to boost productivity.".to_string())
    );
    assert_eq!(a.agent_count, 0);
}

#[test]
fn no_suggestion_with_agents() {
    let mut s = empty_scan();
    s.config_dir = true;
    s.git_dir = true;
    s.agent_files = vec!["planner.md".to_string(), "coder.md".to_string()];
    s.skill_files = vec!["deploy.md".to_string()];
    let a = analyze_project(&s, "Agent CLI");
    assert_eq!(a.suggestion, None);
    assert_eq!(a.agents, vec!["planner", "coder"]);
    assert_eq!(a.skills, vec!["deploy"]);
    assert_eq!(a.agent_count, 2);
    assert_eq!(a.skill_count, 1);
    assert!(a.has_git);
    assert_eq!(a.languages, vec!["Unknown"]);
}
