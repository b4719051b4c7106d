//! Projects: naming a new project directory, and reading the agent
//! configuration that a project carries.

use vstd::prelude::*;
use crate::paths::{answered, join_path, joined, Platform};
use crate::text::{
    alphanumeric_of, chars_of, is_alphanumeric, lowercase_of, push_char, push_decimal,
    decimal_of, string_of, to_lowercase,
};

verus! {

/// How one character of a lowercased project name appears in its directory
/// name: letters, digits and hyphens stay, a space becomes a hyphen, and
/// anything else an underscore.
pub open spec fn slug_char(c: char) -> char {
    if alphanumeric_of(c) || c == '-' {
        c
    } else if c == ' ' {
        '-'
    } else {
        '_'
    }
}

/// The directory name for a project called `name`.
pub open spec fn slug_of(name: Seq<char>) -> Seq<char> {
    let s = lowercase_of(name).map_values(|c: char| slug_char(c));
    if s.len() == 0 {
        "my-project"@
    } else {
        s
    }
}

/// Characters that would make a directory name reach outside its parent
/// or name a different kind of path: separators, dots and drive colons.
pub open spec fn is_path_syntax(c: char) -> bool {
    c == '/' || c == '\\' || c == '.' || c == ':'
}

/// Turns a project's display name into a directory name. The name is never
/// empty and holds no separator, dot or colon, so it names one directory
/// directly inside the directory it is joined to.
pub fn project_slug(name: &str) -> (r: String)
    ensures
        r@ == slug_of(name@),
        r@.len() > 0,
        forall|i: int| 0 <= i < r@.len() ==> !is_path_syntax(#[trigger] r@[i]),
{
    let lower = to_lowercase(name);
    let chars = chars_of(lower.as_str());
    let mut r = String::new();
    let mut i: usize = 0;
    while i < chars.len()
        invariant
            i <= chars@.len(),
            chars@ == lowercase_of(name@),
            r@ == chars@.take(i as int).map_values(|c: char| slug_char(c)),
            forall|j: int| 0 <= j < r@.len() ==> !is_path_syntax(#[trigger] r@[j]),
        decreases chars@.len() - i,
    {
        let c = chars[i];
        let alnum = is_alphanumeric(c);
        let out = if alnum || c == '-' {
            c
        } else if c == ' ' {
            '-'
        } else {
            '_'
        };
        push_char(&mut r, out);
        assert(chars@.take(i + 1).map_values(|c: char| slug_char(c)) =~= chars@.take(
            i as int,
        ).map_values(|c: char| slug_char(c)).push(out));
        i = i + 1;
    }
    assert(chars@.take(i as int) =~= chars@);
    if r.as_str().is_empty() {
        let d = String::from_str("my-project");
        proof {
            reveal_strlit("my-project");
        }
        d
    } else {
        r
    }
}

/// The `n`-th alternative directory for a project whose plain directory is
/// taken: the slug followed by a hyphen and `n`.
pub open spec fn numbered_dir(p: Platform, base: Seq<char>, slug: Seq<char>, n: nat) -> Seq<char> {
    joined(p, base, slug.push('-') + decimal_of(n))
}

/// Picks the directory for a new project under `base`: the slug itself if
/// `is_present` reports it free, else the first of `slug-2`, `slug-3`, ...
/// that is free. Fails only when every number up to `u64::MAX` is taken.
pub fn unique_project_dir<F: Fn(&str) -> bool>(
    p: Platform,
    base: &str,
    slug: &str,
    is_present: &F,
) -> (r: Result<String, String>)
    requires
        forall|x: &str| is_present.requires((x,)),
    ensures
        match r {
            Ok(dir) => {
                ||| dir@ == joined(p, base@, slug@) && answered(*is_present, dir@, false)
                ||| answered(*is_present, joined(p, base@, slug@), true) && exists|n: nat|
                    2 <= n && dir@ == #[trigger] numbered_dir(p, base@, slug@, n) && answered(
                        *is_present,
                        dir@,
                        false,
                    ) && forall|m: nat|
                        2 <= m < n ==> answered(
                            *is_present,
                            #[trigger] numbered_dir(p, base@, slug@, m),
                            true,
                        )
            },
            Err(_) => answered(*is_present, joined(p, base@, slug@), true) && forall|m: nat|
                2 <= m < u64::MAX ==> answered(
                    *is_present,
                    #[trigger] numbered_dir(p, base@, slug@, m),
                    true,
                ),
        },
{
    let plain = join_path(p, base, slug);
    let ps = plain.as_str();
    let taken = is_present(ps);
    assert(answered(*is_present, plain@, taken)) by {
        assert(ps@ == plain@);
    }
    if !taken {
        return Ok(plain);
    }
    let mut n: u64 = 2;
    while n < u64::MAX
        invariant
            2 <= n,
            forall|x: &str| is_present.requires((x,)),
            answered(*is_present, joined(p, base@, slug@), true),
            forall|m: nat|
                2 <= m < n ==> answered(
                    *is_present,
                    #[trigger] numbered_dir(p, base@, slug@, m),
                    true,
                ),
        decreases u64::MAX - n,
    {
        let mut name = String::from_str(slug);
        push_char(&mut name, '-');
        push_decimal(&mut name, n);
        let dir = join_path(p, base, name.as_str());
        assert(dir@ == numbered_dir(p, base@, slug@, n as nat));
        let ds = dir.as_str();
        let busy = is_present(ds);
        assert(answered(*is_present, dir@, busy)) by {
            assert(ds@ == dir@);
        }
        if !busy {
            return Ok(dir);
        }
        n = n + 1;
    }
    Err(String::from_str("No free directory name for the project"))
}

/// The name of a project's agent configuration directory: a dot followed by
/// the agent's program name.
pub open spec fn config_dir_name_of(program: Seq<char>) -> Seq<char> {
    seq!['.'] + program
}

pub fn config_dir_name(program: &str) -> (r: String)
    ensures
        r@ == config_dir_name_of(program@),
{
    let mut r = String::new();
    push_char(&mut r, '.');
    r.append(program);
    r
}

/// Whether a file name ends in `.md`.
pub open spec fn is_markdown(s: Seq<char>) -> bool {
    s.len() >= 3 && s[s.len() - 3] == '.' && s[s.len() - 2] == 'm' && s[s.len() - 1] == 'd'
}

/// A file name with every trailing `.md` removed.
pub open spec fn stem_of(s: Seq<char>) -> Seq<char>
    decreases s.len(),
{
    if is_markdown(s) {
        stem_of(s.take(s.len() - 3))
    } else {
        s
    }
}

/// The stems of the markdown files among `names`, in order.
pub open spec fn markdown_stems_of(names: Seq<Seq<char>>) -> Seq<Seq<char>>
    decreases names.len(),
{
    if names.len() == 0 {
        Seq::empty()
    } else {
        let init = markdown_stems_of(names.drop_last());
        if is_markdown(names.last()) {
            init.push(stem_of(names.last()))
        } else {
            init
        }
    }
}

/// The stem of a file name: the name without its trailing `.md` suffixes.
pub fn markdown_stem(name: &str) -> (r: String)
    ensures
        r@ == stem_of(name@),
{
    let chars = chars_of(name);
    let mut n: usize = chars.len();
    assert(chars@.take(n as int) =~= name@);
    while n >= 3 && chars[n - 3] == '.' && chars[n - 2] == 'm' && chars[n - 1] == 'd'
        invariant
            n <= chars@.len(),
            chars@ == name@,
            stem_of(chars@.take(n as int)) == stem_of(name@),
        decreases n,
    {
        assert(chars@.take(n as int).take(n - 3) =~= chars@.take(n - 3));
        n = n - 3;
    }
    string_of(&chars, n)
}

/// The names of the markdown files among `names`, without `.md`: how agents
/// and skills are named after the files that define them.
pub fn markdown_stems(names: &Vec<String>) -> (r: Vec<String>)
    ensures
        r@.map_values(|s: String| s@) == markdown_stems_of(names@.map_values(|s: String| s@)),
{
    let mut r: Vec<String> = Vec::new();
    let mut i: usize = 0;
    while i < names.len()
        invariant
            i <= names@.len(),
            r@.map_values(|s: String| s@) == markdown_stems_of(
                names@.take(i as int).map_values(|s: String| s@),
            ),
        decreases names@.len() - i,
    {
        let ghost before = r@.map_values(|s: String| s@);
        let ghost prefix = names@.take(i + 1).map_values(|s: String| s@);
        assert(prefix.drop_last() =~= names@.take(i as int).map_values(|s: String| s@));
        assert(prefix.last() == names@[i as int]@);
        let chars = chars_of(names[i].as_str());
        let n = chars.len();
        if n >= 3 && chars[n - 3] == '.' && chars[n - 2] == 'm' && chars[n - 1] == 'd' {
            let stem = markdown_stem(names[i].as_str());
            r.push(stem);
            assert(r@.map_values(|s: String| s@) =~= before.push(stem@));
        }
        i = i + 1;
    }
    assert(names@.take(i as int) =~= names@);
    r
}

} // verus!
