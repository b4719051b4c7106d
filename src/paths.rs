//! Search paths and file locations: how the agent's binary is looked up
//! across operating systems, and where new projects are placed.

use vstd::prelude::*;
use crate::text::{push_char, trim, trimmed, views};

verus! {

/// The operating systems the front end runs on.
#[derive(Clone, Copy, Debug, PartialEq, Eq, Structural)]
pub enum Platform {
    Windows,
    MacOs,
    Linux,
}

pub open spec fn is_windows(p: Platform) -> bool {
    p == Platform::Windows
}

/// The character that separates the directories of a search path.
pub open spec fn list_separator_of(p: Platform) -> char {
    if is_windows(p) { ';' } else { ':' }
}

/// The character placed between a directory and a name joined to it.
pub open spec fn path_separator_of(p: Platform) -> char {
    if is_windows(p) { '\\' } else { '/' }
}

/// Whether `c` ends a directory, so that a name can follow it directly.
pub open spec fn ends_directory(p: Platform, c: char) -> bool {
    c == '/' || (is_windows(p) && c == '\\')
}

/// `name` placed inside `dir`: a separator goes between them unless `dir` is
/// empty or already ends with one.
pub open spec fn joined(p: Platform, dir: Seq<char>, name: Seq<char>) -> Seq<char> {
    if dir.len() == 0 || ends_directory(p, dir.last()) {
        dir + name
    } else {
        dir.push(path_separator_of(p)) + name
    }
}

/// The pieces of `s` between occurrences of `sep`; an empty `s` is one empty
/// piece, and two adjacent separators leave an empty piece between them.
pub open spec fn split_on(s: Seq<char>, sep: char) -> Seq<Seq<char>>
    decreases s.len(),
{
    if s.len() == 0 {
        seq![Seq::empty()]
    } else {
        let init = split_on(s.drop_last(), sep);
        if s.last() == sep {
            init.push(Seq::empty())
        } else {
            init.update(init.len() - 1, init.last().push(s.last()))
        }
    }
}

pub proof fn lemma_split_on_nonempty(s: Seq<char>, sep: char)
    ensures
        split_on(s, sep).len() >= 1,
    decreases s.len(),
{
    if s.len() > 0 {
        lemma_split_on_nonempty(s.drop_last(), sep);
    }
}

impl Platform {
    /// The environment variable that holds the user's home directory.
    pub fn home_variable(self) -> (r: &'static str)
        ensures
            r@ == (if is_windows(self) { "USERPROFILE"@ } else { "HOME"@ }),
    {
        match self {
            Platform::Windows => "USERPROFILE",
            _ => "HOME",
        }
    }

    pub fn list_separator(self) -> (r: char)
        ensures
            r == list_separator_of(self),
    {
        match self {
            Platform::Windows => ';',
            _ => ':',
        }
    }

    pub fn path_separator(self) -> (r: char)
        ensures
            r == path_separator_of(self),
    {
        match self {
            Platform::Windows => '\\',
            _ => '/',
        }
    }
}

/// Joins `name` onto `dir` with the platform's separator.
pub fn join_path(p: Platform, dir: &str, name: &str) -> (r: String)
    ensures
        r@ == joined(p, dir@, name@),
{
    let n = dir.unicode_len();
    let mut r = String::from_str(dir);
    if n > 0 {
        let last = dir.get_char(n - 1);
        let ends = last == '/' || (p == Platform::Windows && last == '\\');
        if !ends {
            push_char(&mut r, p.path_separator());
        }
    }
    r.append(name);
    r
}

/// Splits `s` at every `sep`.
pub fn split_list(s: &str, sep: char) -> (r: Vec<String>)
    ensures
        r@.map_values(|d: String| d@) == split_on(s@, sep),
{
    let chars = crate::text::chars_of(s);
    let mut parts: Vec<String> = Vec::new();
    let mut cur = String::new();
    let mut i: usize = 0;
    proof {
        assert(s@.take(0) =~= Seq::<char>::empty());
    }
    while i < chars.len()
        invariant
            i <= chars@.len(),
            chars@ == s@,
            ({
                let all = split_on(s@.take(i as int), sep);
                &&& all.len() >= 1
                &&& all.drop_last() == parts@.map_values(|d: String| d@)
                &&& all.last() == cur@
            }),
        decreases chars@.len() - i,
    {
        let c = chars[i];
        proof {
            let t = s@.take(i as int + 1);
            assert(t.drop_last() =~= s@.take(i as int));
            assert(t.last() == c);
            lemma_split_on_nonempty(s@.take(i as int), sep);
        }
        if c == sep {
            let ghost prev = parts@.map_values(|d: String| d@);
            let done = cur;
            parts.push(done);
            cur = String::new();
            proof {
                let all = split_on(s@.take(i as int), sep);
                assert(parts@.map_values(|d: String| d@) =~= prev.push(all.last()));
                assert(all =~= all.drop_last().push(all.last()));
                let next = split_on(s@.take(i as int + 1), sep);
                assert(next == all.push(Seq::empty()));
                assert(next.drop_last() =~= parts@.map_values(|d: String| d@));
            }
        } else {
            push_char(&mut cur, c);
            proof {
                let all = split_on(s@.take(i as int), sep);
                let next = split_on(s@.take(i as int + 1), sep);
                assert(next.drop_last() =~= all.drop_last());
            }
        }
        i = i + 1;
    }
    let ghost before = parts@.map_values(|d: String| d@);
    parts.push(cur);
    proof {
        assert(s@.take(i as int) =~= s@);
        let all = split_on(s@, sep);
        assert(parts@.map_values(|d: String| d@) =~= before.push(all.last()));
        assert(all =~= all.drop_last().push(all.last()));
    }
    parts
}

/// The directories that a login shell's search path is taken from, in the
/// order they are tried. On Windows the inherited search path is used as is.
pub open spec fn login_shells_of(p: Platform) -> Seq<Seq<char>> {
    match p {
        Platform::Windows => Seq::empty(),
        Platform::MacOs => seq!["/bin/zsh"@, "/bin/bash"@],
        Platform::Linux => seq!["/bin/bash"@, "/bin/zsh"@, "/bin/sh"@],
    }
}

/// The shells to ask for the user's search path, in order.
pub fn login_shells(p: Platform) -> (r: Vec<&'static str>)
    ensures
        r@.map_values(|s: &str| s@) == login_shells_of(p),
{
    let mut r: Vec<&'static str> = Vec::new();
    match p {
        Platform::Windows => {},
        Platform::MacOs => {
            r.push("/bin/zsh");
            r.push("/bin/bash");
        },
        Platform::Linux => {
            r.push("/bin/bash");
            r.push("/bin/zsh");
            r.push("/bin/sh");
        },
    }
    proof {
        assert(r@.map_values(|s: &str| s@) =~= login_shells_of(p));
    }
    r
}

/// What a command printed, if it succeeded and printed more than white space.
pub open spec fn output_text(success: bool, stdout: Seq<char>) -> Option<Seq<char>> {
    if success && trimmed(stdout).len() > 0 {
        Some(trimmed(stdout))
    } else {
        None
    }
}

/// The trimmed output of a command that succeeded, unless it is empty.
pub fn nonempty_output(success: bool, stdout: &str) -> (r: Option<String>)
    ensures
        match r {
            Some(t) => output_text(success, stdout@) == Some(t@),
            None => output_text(success, stdout@) is None,
        },
{
    if !success {
        return None;
    }
    let t = trim(stdout);
    if t.is_empty() {
        None
    } else {
        Some(String::from_str(t))
    }
}

/// The search path used when no login shell reports one: the inherited
/// `current` path, preceded by the usual per-user install directories when
/// the home directory is known.
pub open spec fn fallback_path_of(
    p: Platform,
    home: Option<Seq<char>>,
    current: Seq<char>,
    appdata: Seq<char>,
) -> Seq<char> {
    match home {
        None => current,
        Some(h) => match p {
            Platform::Windows => joined(p, h, "AppData\\Roaming\\npm"@) + seq![';'] + appdata
                + seq![';'] + current,
            Platform::MacOs => joined(p, h, ".local/bin"@) + seq![':'] + joined(p, h, ".cargo/bin"@)
                + seq![':'] + joined(p, h, ".nvm/versions/node"@)
                + ":/usr/local/bin:/opt/homebrew/bin:"@ + current,
            Platform::Linux => joined(p, h, ".local/bin"@) + seq![':'] + joined(p, h, ".cargo/bin"@)
                + ":/usr/local/bin:"@ + current,
        },
    }
}

/// Builds the fallback search path from the home directory, the inherited
/// search path and, on Windows, the roaming application-data directory.
pub fn fallback_search_path(p: Platform, home: Option<&str>, current: &str, appdata: &str) -> (r:
    String)
    ensures
        r@ == fallback_path_of(p, match home { Some(h) => Some(h@), None => None }, current@, appdata@),
{
    match home {
        None => String::from_str(current),
        Some(h) => match p {
            Platform::Windows => {
                let mut r = join_path(p, h, "AppData\\Roaming\\npm");
                push_char(&mut r, ';');
                r.append(appdata);
                push_char(&mut r, ';');
                r.append(current);
                r
            },
            Platform::MacOs => {
                let mut r = join_path(p, h, ".local/bin");
                push_char(&mut r, ':');
                r.append(join_path(p, h, ".cargo/bin").as_str());
                push_char(&mut r, ':');
                r.append(join_path(p, h, ".nvm/versions/node").as_str());
                r.append(":/usr/local/bin:/opt/homebrew/bin:");
                r.append(current);
                r
            },
            Platform::Linux => {
                let mut r = join_path(p, h, ".local/bin");
                push_char(&mut r, ':');
                r.append(join_path(p, h, ".cargo/bin").as_str());
                r.append(":/usr/local/bin:");
                r.append(current);
                r
            },
        },
    }
}

/// The file names under which the agent's program may be installed, in the
/// order they are tried within one directory: on Windows the executable,
/// batch and PowerShell forms before the bare name.
pub open spec fn binary_names_of(p: Platform, program: Seq<char>) -> Seq<Seq<char>> {
    if is_windows(p) {
        seq![program + ".exe"@, program + ".cmd"@, program + ".ps1"@, program]
    } else {
        seq![program]
    }
}

pub fn binary_names(p: Platform, program: &str) -> (r: Vec<String>)
    ensures
        views(r@) == binary_names_of(p, program@),
{
    let mut r: Vec<String> = Vec::new();
    if p == Platform::Windows {
        r.push(String::from_str(program).concat(".exe"));
        r.push(String::from_str(program).concat(".cmd"));
        r.push(String::from_str(program).concat(".ps1"));
    }
    r.push(String::from_str(program));
    assert(views(r@) =~= binary_names_of(p, program@));
    r
}

/// The `j`-th binary name inside the `i`-th directory of `search_path`.
pub open spec fn candidate_of(
    p: Platform,
    program: Seq<char>,
    search_path: Seq<char>,
    i: int,
    j: int,
) -> Seq<char> {
    joined(p, split_on(search_path, list_separator_of(p))[i], binary_names_of(p, program)[j])
}

/// `probe` was asked about the path `c` and answered `answer`.
pub open spec fn answered<F: Fn(&str) -> bool>(probe: F, c: Seq<char>, answer: bool) -> bool {
    exists|x: &str| x@ == c && #[trigger] probe.ensures((x,), answer)
}

/// Every candidate before directory `i`, name `j`, was reported absent.
pub open spec fn absent_before<F: Fn(&str) -> bool>(
    probe: F,
    p: Platform,
    program: Seq<char>,
    search_path: Seq<char>,
    i: int,
    j: int,
) -> bool {
    forall|i2: int, j2: int|
        0 <= i2 < split_on(search_path, list_separator_of(p)).len() && 0 <= j2
            < binary_names_of(p, program).len() && (i2 < i || (i2 == i && j2 < j)) ==> answered(
            probe,
            #[trigger] candidate_of(p, program, search_path, i2, j2),
            false,
        )
}

/// Looks for the agent's program in each directory of `search_path`, trying
/// each binary name within a directory before the next directory, and
/// returns the first candidate that `is_present` reports present.
pub fn find_claude_binary<F: Fn(&str) -> bool>(
    p: Platform,
    program: &str,
    search_path: &str,
    is_present: &F,
) -> (r: Option<String>)
    requires
        forall|x: &str| is_present.requires((x,)),
    ensures
        match r {
            Some(found) => exists|i: int, j: int|
                0 <= i < split_on(search_path@, list_separator_of(p)).len() && 0 <= j
                    < binary_names_of(p, program@).len() && found@ == #[trigger] candidate_of(
                    p,
                    program@,
                    search_path@,
                    i,
                    j,
                ) && answered(*is_present, found@, true) && absent_before(
                    *is_present,
                    p,
                    program@,
                    search_path@,
                    i,
                    j,
                ),
            None => absent_before(
                *is_present,
                p,
                program@,
                search_path@,
                split_on(search_path@, list_separator_of(p)).len() as int,
                0,
            ),
        },
{
    let dirs = split_list(search_path, p.list_separator());
    let names = binary_names(p, program);
    let ghost sdirs = split_on(search_path@, list_separator_of(p));
    let ghost snames = binary_names_of(p, program@);
    assert(dirs@.len() == sdirs.len());
    assert(names@.len() == snames.len());
    let mut i: usize = 0;
    while i < dirs.len()
        invariant
            i <= dirs@.len(),
            dirs@.map_values(|d: String| d@) == sdirs,
            views(names@) == snames,
            sdirs == split_on(search_path@, list_separator_of(p)),
            snames == binary_names_of(p, program@),
            dirs@.len() == sdirs.len(),
            names@.len() == snames.len(),
            forall|x: &str| is_present.requires((x,)),
            absent_before(*is_present, p, program@, search_path@, i as int, 0),
        decreases dirs@.len() - i,
    {
        let mut j: usize = 0;
        while j < names.len()
            invariant
                i < dirs@.len(),
                j <= names@.len(),
                dirs@.map_values(|d: String| d@) == sdirs,
                views(names@) == snames,
                sdirs == split_on(search_path@, list_separator_of(p)),
                snames == binary_names_of(p, program@),
                dirs@.len() == sdirs.len(),
                names@.len() == snames.len(),
                forall|x: &str| is_present.requires((x,)),
                absent_before(*is_present, p, program@, search_path@, i as int, j as int),
            decreases names@.len() - j,
        {
            let candidate = join_path(p, dirs[i].as_str(), names[j].as_str());
            assert(candidate@ == candidate_of(p, program@, search_path@, i as int, j as int)) by {
                assert(dirs@.map_values(|d: String| d@)[i as int] == dirs@[i as int]@);
                assert(views(names@)[j as int] == names@[j as int]@);
            }
            let cs = candidate.as_str();
            let present = is_present(cs);
            assert(answered(*is_present, candidate@, present)) by {
                assert(cs@ == candidate@);
            }
            if present {
                return Some(candidate);
            }
            assert forall|i2: int, j2: int|
                0 <= i2 < sdirs.len() && 0 <= j2 < snames.len() && (i2 < i || (i2 == i && j2 < j
                    + 1)) implies answered(
                *is_present,
                #[trigger] candidate_of(p, program@, search_path@, i2, j2),
                false,
            ) by {
                if i2 == i && j2 == j {
                } else {
                    assert(i2 < i || (i2 == i && j2 < j));
                }
            }
            j = j + 1;
        }
        assert forall|i2: int, j2: int|
            0 <= i2 < sdirs.len() && 0 <= j2 < snames.len() && (i2 < i + 1 || (i2 == i + 1 && j2
                < 0)) implies answered(
            *is_present,
            #[trigger] candidate_of(p, program@, search_path@, i2, j2),
            false,
        ) by {
            if i2 == i {
                assert(i2 == i && j2 < names@.len());
            }
        }
        i = i + 1;
    }
    None
}

/// Where new projects are created: `Documents/CC-Projects` under the home
/// directory, which must be known.
pub fn projects_base_dir(p: Platform, home: Option<&str>) -> (r: Result<String, String>)
    ensures
        match home {
            None => r matches Err(e) && e@ == "Cannot find home directory"@,
            Some(h) => r matches Ok(d) && d@ == joined(p, joined(p, h@, "Documents"@), "CC-Projects"@),
        },
{
    match home {
        None => Err(String::from_str("Cannot find home directory")),
        Some(h) => {
            let docs = join_path(p, h, "Documents");
            Ok(join_path(p, docs.as_str(), "CC-Projects"))
        },
    }
}

} // verus!
