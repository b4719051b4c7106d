//! What a project is made of: its languages and framework, told from the
//! manifest files at its root, and whether it carries agent configuration.

use vstd::prelude::*;
use crate::project::{markdown_stems, markdown_stems_of};
use crate::text::{chars_of, contains, occurs_in, opt_view, push_char, views};

verus! {

/// What was found at a project's root. Each flag says whether a file or
/// directory of that name exists; each text is the content of a manifest,
/// when it could be read.
#[derive(Debug)]
pub struct ProjectScan {
    pub package_json: bool,
    pub package_json_text: Option<String>,
    pub cargo_toml: bool,
    pub requirements_txt: bool,
    pub requirements_txt_text: Option<String>,
    pub pyproject_toml: bool,
    pub pyproject_toml_text: Option<String>,
    pub setup_py: bool,
    pub go_mod: bool,
    pub pom_xml: bool,
    pub pom_xml_text: Option<String>,
    pub build_gradle: bool,
    pub gemfile: bool,
    pub package_swift: bool,
    /// The agent's configuration directory exists: a dot followed by the
    /// agent's program name.
    pub config_dir: bool,
    /// The `.git` directory exists.
    pub git_dir: bool,
    /// The file names in the `agents` directory of the configuration, in the order they were listed.
    pub agent_files: Vec<String>,
    /// The file names in the `skills` directory of the configuration, in the order they were listed.
    pub skill_files: Vec<String>,
}

/// The summary shown for a project.
#[derive(Debug)]
pub struct ProjectAnalysis {
    pub languages: Vec<String>,
    pub framework: Option<String>,
    pub has_claude_config: bool,
    pub agent_count: usize,
    pub skill_count: usize,
    pub agents: Vec<String>,
    pub skills: Vec<String>,
    pub has_git: bool,
    pub suggestion: Option<String>,
}

pub open spec fn when(b: bool, s: Seq<char>) -> Seq<Seq<char>> {
    if b {
        seq![s]
    } else {
        Seq::empty()
    }
}

pub open spec fn is_python(s: ProjectScan) -> bool {
    s.requirements_txt || s.pyproject_toml || s.setup_py
}

pub open spec fn is_java(s: ProjectScan) -> bool {
    s.pom_xml || s.build_gradle
}

/// The languages whose manifests are present, in a fixed order.
pub open spec fn detected_languages(s: ProjectScan) -> Seq<Seq<char>> {
    when(s.package_json, "JavaScript/TypeScript"@) + when(s.cargo_toml, "Rust"@) + when(
        is_python(s),
        "Python"@,
    ) + when(s.go_mod, "Go"@) + when(is_java(s), "Java"@) + when(s.gemfile, "Ruby"@) + when(
        s.package_swift,
        "Swift"@,
    )
}

/// The project's languages; `Unknown` alone when none is recognised.
pub open spec fn languages_of(s: ProjectScan) -> Seq<Seq<char>> {
    let d = detected_languages(s);
    if d.len() == 0 {
        seq!["Unknown"@]
    } else {
        d
    }
}

/// The label of the first rule whose marker occurs in `text`.
pub open spec fn first_rule(text: Seq<char>, rules: Seq<(Seq<char>, Seq<char>)>) -> Option<
    Seq<char>,
>
    decreases rules.len(),
{
    if rules.len() == 0 {
        None
    } else if occurs_in(text, rules[0].0) {
        Some(rules[0].1)
    } else {
        first_rule(text, rules.drop_first())
    }
}

/// Markers of JavaScript frameworks in `package.json`, most specific first.
pub open spec fn js_rules() -> Seq<(Seq<char>, Seq<char>)> {
    seq![
        ("\"next\""@, "Next.js"@),
        ("\"react\""@, "React"@),
        ("\"vue\""@, "Vue"@),
        ("\"svelte\""@, "Svelte"@),
        ("\"express\""@, "Express"@),
        ("\"nuxt\""@, "Nuxt"@),
        ("\"angular\""@, "Angular"@),
    ]
}

/// Markers of Python frameworks in a Python manifest.
pub open spec fn python_rules() -> Seq<(Seq<char>, Seq<char>)> {
    seq![("django"@, "Django"@), ("flask"@, "Flask"@), ("fastapi"@, "FastAPI"@)]
}

/// Markers of Java frameworks in `pom.xml`.
pub open spec fn java_rules() -> Seq<(Seq<char>, Seq<char>)> {
    seq![("spring"@, "Spring"@)]
}

pub open spec fn framework_in(text: Option<Seq<char>>, rules: Seq<(Seq<char>, Seq<char>)>) -> Option<
    Seq<char>,
> {
    match text {
        Some(t) => first_rule(t, rules),
        None => None,
    }
}

/// The Python manifest that is read: `requirements.txt`, or else
/// `pyproject.toml`.
pub open spec fn python_manifest(s: ProjectScan) -> Option<Seq<char>> {
    match opt_view(s.requirements_txt_text) {
        Some(t) => Some(t),
        None => opt_view(s.pyproject_toml_text),
    }
}

pub open spec fn js_framework(s: ProjectScan) -> Option<Seq<char>> {
    if s.package_json {
        framework_in(opt_view(s.package_json_text), js_rules())
    } else {
        None
    }
}

pub open spec fn python_framework(s: ProjectScan) -> Option<Seq<char>> {
    if is_python(s) {
        framework_in(python_manifest(s), python_rules())
    } else {
        None
    }
}

pub open spec fn java_framework(s: ProjectScan) -> Option<Seq<char>> {
    if s.pom_xml {
        framework_in(opt_view(s.pom_xml_text), java_rules())
    } else {
        None
    }
}

pub open spec fn or_else(a: Option<Seq<char>>, b: Option<Seq<char>>) -> Option<Seq<char>> {
    if a is Some {
        a
    } else {
        b
    }
}

/// The framework: a Java one wins over a Python one, which wins over a
/// JavaScript one.
pub open spec fn framework_of(s: ProjectScan) -> Option<Seq<char>> {
    or_else(java_framework(s), or_else(python_framework(s), js_framework(s)))
}

pub open spec fn agents_of(s: ProjectScan) -> Seq<Seq<char>> {
    markdown_stems_of(views(s.agent_files@))
}

pub open spec fn skills_of(s: ProjectScan) -> Seq<Seq<char>> {
    markdown_stems_of(views(s.skill_files@))
}

/// A hint for a project without agent configuration, or with configuration
/// that defines neither agents nor skills; `product` is the agent's name as
/// shown to the user.
pub open spec fn suggestion_of(s: ProjectScan, product: Seq<char>) -> Option<Seq<char>> {
    if !s.config_dir {
        let subject = match framework_of(s) {
            Some(f) => f,
            None => languages_of(s)[0],
        };
        Some(
            "This looks like a "@ + subject + " project. Set up a dev team to get the most out of "@
                + product + seq!['.'],
        )
    } else if agents_of(s).len() == 0 && skills_of(s).len() == 0 {
        Some(product + " config found but no agents or skills. Add a team to boost productivity."@)
    } else {
        None
    }
}

/// The label of the first of `rules` whose marker occurs in `text`.
pub fn match_rules(text: &Vec<char>, rules: &Vec<(&str, &str)>) -> (r: Option<String>)
    ensures
        opt_view(r) == first_rule(text@, rules@.map_values(|x: (&str, &str)| (x.0@, x.1@))),
{
    let ghost all = rules@.map_values(|x: (&str, &str)| (x.0@, x.1@));
    let mut i: usize = 0;
    assert(all.skip(0) =~= all);
    while i < rules.len()
        invariant
            i <= rules@.len(),
            all == rules@.map_values(|x: (&str, &str)| (x.0@, x.1@)),
            first_rule(text@, all) == first_rule(text@, all.skip(i as int)),
        decreases rules@.len() - i,
    {
        let (marker, label) = rules[i];
        let m = chars_of(marker);
        assert(all.skip(i as int)[0] == (marker@, label@));
        if contains(text, &m) {
            return Some(String::from_str(label));
        }
        assert(all.skip(i as int).drop_first() =~= all.skip(i + 1));
        i = i + 1;
    }
    None
}

fn js_rule_list() -> (r: Vec<(&'static str, &'static str)>)
    ensures
        r@.map_values(|x: (&str, &str)| (x.0@, x.1@)) == js_rules(),
{
    let r = vec![
        ("\"next\"", "Next.js"),
        ("\"react\"", "React"),
        ("\"vue\"", "Vue"),
        ("\"svelte\"", "Svelte"),
        ("\"express\"", "Express"),
        ("\"nuxt\"", "Nuxt"),
        ("\"angular\"", "Angular"),
    ];
    assert(r@.map_values(|x: (&str, &str)| (x.0@, x.1@)) =~= js_rules());
    r
}

fn python_rule_list() -> (r: Vec<(&'static str, &'static str)>)
    ensures
        r@.map_values(|x: (&str, &str)| (x.0@, x.1@)) == python_rules(),
{
    let r = vec![("django", "Django"), ("flask", "Flask"), ("fastapi", "FastAPI")];
    assert(r@.map_values(|x: (&str, &str)| (x.0@, x.1@)) =~= python_rules());
    r
}

fn java_rule_list() -> (r: Vec<(&'static str, &'static str)>)
    ensures
        r@.map_values(|x: (&str, &str)| (x.0@, x.1@)) == java_rules(),
{
    let r = vec![("spring", "Spring")];
    assert(r@.map_values(|x: (&str, &str)| (x.0@, x.1@)) =~= java_rules());
    r
}

/// The framework named by the first matching rule, if `text` was read.
fn framework_from(text: &Option<String>, rules: &Vec<(&str, &str)>) -> (r: Option<String>)
    ensures
        opt_view(r) == framework_in(opt_view(*text), rules@.map_values(|x: (&str, &str)| (x.0@, x.1@))),
{
    match text {
        Some(t) => match_rules(&chars_of(t.as_str()), rules),
        None => None,
    }
}

/// Appends `name` to `langs` when `present` holds.
fn add_language(langs: &mut Vec<String>, present: bool, name: &str)
    ensures
        views(final(langs)@) == views(old(langs)@) + when(present, name@),
{
    let ghost before = views(langs@);
    if present {
        langs.push(String::from_str(name));
        assert(views(langs@) =~= before + when(present, name@));
    } else {
        assert(views(langs@) =~= before + when(present, name@));
    }
}

/// The languages of a project.
pub fn project_languages(s: &ProjectScan) -> (r: Vec<String>)
    ensures
        views(r@) == languages_of(*s),
{
    let mut langs: Vec<String> = Vec::new();
    assert(views(langs@) =~= Seq::<Seq<char>>::empty());
    add_language(&mut langs, s.package_json, "JavaScript/TypeScript");
    add_language(&mut langs, s.cargo_toml, "Rust");
    add_language(&mut langs, s.requirements_txt || s.pyproject_toml || s.setup_py, "Python");
    add_language(&mut langs, s.go_mod, "Go");
    add_language(&mut langs, s.pom_xml || s.build_gradle, "Java");
    add_language(&mut langs, s.gemfile, "Ruby");
    add_language(&mut langs, s.package_swift, "Swift");
    assert(views(langs@) =~= detected_languages(*s));
    if langs.len() == 0 {
        langs.push(String::from_str("Unknown"));
        assert(views(langs@) =~= seq!["Unknown"@]);
    }
    langs
}

/// The framework of a project, told from its manifests.
pub fn project_framework(s: &ProjectScan) -> (r: Option<String>)
    ensures
        opt_view(r) == framework_of(*s),
{
    let js = if s.package_json {
        framework_from(&s.package_json_text, &js_rule_list())
    } else {
        None
    };
    let python = if s.requirements_txt || s.pyproject_toml || s.setup_py {
        match &s.requirements_txt_text {
            Some(t) => match_rules(&chars_of(t.as_str()), &python_rule_list()),
            None => framework_from(&s.pyproject_toml_text, &python_rule_list()),
        }
    } else {
        None
    };
    let java = if s.pom_xml {
        framework_from(&s.pom_xml_text, &java_rule_list())
    } else {
        None
    };
    if java.is_some() {
        java
    } else if python.is_some() {
        python
    } else {
        js
    }
}

/// Summarises a project from what was found at its root; `product` is the
/// agent's name as shown to the user.
pub fn analyze_project(s: &ProjectScan, product: &str) -> (r: ProjectAnalysis)
    ensures
        views(r.languages@) == languages_of(*s),
        opt_view(r.framework) == framework_of(*s),
        r.has_claude_config == s.config_dir,
        views(r.agents@) == agents_of(*s),
        views(r.skills@) == skills_of(*s),
        r.agent_count == r.agents@.len(),
        r.skill_count == r.skills@.len(),
        r.has_git == s.git_dir,
        opt_view(r.suggestion) == suggestion_of(*s, product@),
{
    let languages = project_languages(s);
    let framework = project_framework(s);
    let agents = markdown_stems(&s.agent_files);
    let skills = markdown_stems(&s.skill_files);
    let suggestion = if !s.config_dir {
        let mut text = String::from_str("This looks like a ");
        match &framework {
            Some(f) => text.append(f.as_str()),
            None => text.append(languages[0].as_str()),
        }
        text.append(" project. Set up a dev team to get the most out of ");
        text.append(product);
        push_char(&mut text, '.');
        Some(text)
    } else if agents.len() == 0 && skills.len() == 0 {
        Some(
            String::from_str(product).concat(
                " config found but no agents or skills. Add a team to boost productivity.",
            ),
        )
    } else {
        None
    };
    let agent_count = agents.len();
    let skill_count = skills.len();
    ProjectAnalysis {
        languages,
        framework,
        has_claude_config: s.config_dir,
        agent_count,
        skill_count,
        agents,
        skills,
        has_git: s.git_dir,
        suggestion,
    }
}

} // verus!
