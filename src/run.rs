//! One run of the agent in print mode: its arguments, its environment, the
//! output collected while it runs, and the text reported when it ends.

use vstd::prelude::*;
use crate::text::{push_char, trim, trimmed, views};

verus! {

/// The agent's arguments for `prompt`; permission prompts are skipped only
/// when `auto_approve` is `Some(true)`.
pub open spec fn prompt_args_of(prompt: Seq<char>, auto_approve: Option<bool>) -> Seq<Seq<char>> {
    let base = seq!["-p"@, prompt];
    if auto_approve == Some(true) {
        base.push("--dangerously-skip-permissions"@)
    } else {
        base
    }
}

/// The command-line arguments that run `prompt` in print mode.
pub fn prompt_args(prompt: &str, auto_approve: Option<bool>) -> (r: Vec<String>)
    ensures
        views(r@) == prompt_args_of(prompt@, auto_approve),
{
    let mut args = vec![String::from_str("-p"), String::from_str(prompt)];
    let approve = match auto_approve {
        Some(b) => b,
        None => false,
    };
    if approve {
        args.push(String::from_str("--dangerously-skip-permissions"));
    }
    assert(views(args@) =~= prompt_args_of(prompt@, auto_approve));
    args
}

/// Variables that the agent's own sessions set, which would make it refuse to
/// start as if nested in another session, and the search path, which is
/// replaced.
pub open spec fn is_replaced_var(key: Seq<char>) -> bool {
    key == "CLAUDECODE"@ || key == "CLAUDE_CODE_SESSION"@ || key == "CLAUDE_CODE_ENTRY_POINT"@
        || key == "CLAUDE_CODE_PACKAGE_DIR"@ || key == "PATH"@
}

pub open spec fn pair_views(v: Seq<(String, String)>) -> Seq<(Seq<char>, Seq<char>)> {
    v.map_values(|p: (String, String)| (p.0@, p.1@))
}

/// The variables of `vars` that are passed on, in order.
pub open spec fn kept_vars(vars: Seq<(Seq<char>, Seq<char>)>) -> Seq<(Seq<char>, Seq<char>)>
    decreases vars.len(),
{
    if vars.len() == 0 {
        Seq::empty()
    } else {
        let init = kept_vars(vars.drop_last());
        if is_replaced_var(vars.last().0) {
            init
        } else {
            init.push(vars.last())
        }
    }
}

fn replaced_var(key: &String) -> (r: bool)
    ensures
        r == is_replaced_var(key@),
{
    *key == String::from_str("CLAUDECODE") || *key == String::from_str("CLAUDE_CODE_SESSION")
        || *key == String::from_str("CLAUDE_CODE_ENTRY_POINT") || *key == String::from_str(
        "CLAUDE_CODE_PACKAGE_DIR",
    ) || *key == String::from_str("PATH")
}

/// The environment of a run: the inherited variables `vars` without the
/// agent's session variables and the old search path, followed by `PATH`
/// set to `search_path`.
pub fn agent_environment(vars: Vec<(String, String)>, search_path: String) -> (r: Vec<
    (String, String),
>)
    ensures
        pair_views(r@) == kept_vars(pair_views(vars@)).push(("PATH"@, search_path@)),
{
    let mut r: Vec<(String, String)> = Vec::new();
    let mut i: usize = 0;
    while i < vars.len()
        invariant
            i <= vars@.len(),
            pair_views(r@) == kept_vars(pair_views(vars@.take(i as int))),
        decreases vars@.len() - i,
    {
        let ghost before = pair_views(r@);
        assert(pair_views(vars@.take(i + 1)).drop_last() =~= pair_views(vars@.take(i as int)));
        let (k, v) = (vars[i].0.clone(), vars[i].1.clone());
        if !replaced_var(&k) {
            r.push((k, v));
            assert(pair_views(r@) =~= before.push((vars@[i as int].0@, vars@[i as int].1@)));
        }
        i = i + 1;
    }
    assert(vars@.take(i as int) =~= vars@);
    let ghost before = pair_views(r@);
    r.push((String::from_str("PATH"), search_path));
    assert(pair_views(r@) =~= before.push(("PATH"@, search_path@)));
    r
}

/// Adds one line of output, with its line break, to what was collected.
pub fn append_line(collected: &mut String, line: &str)
    ensures
        final(collected)@ == old(collected)@ + line@ + seq!['\n'],
{
    collected.append(line);
    push_char(collected, '\n');
}

/// The text reported when a run ends: its standard output, trimmed; but if
/// the run failed and printed nothing, its error output, trimmed, or a fixed
/// message naming the agent (`product`) when that is empty too.
pub open spec fn final_output_of(
    success: bool,
    stdout: Seq<char>,
    stderr: Seq<char>,
    product: Seq<char>,
) -> Seq<char> {
    if !success && trimmed(stdout).len() == 0 {
        if trimmed(stderr).len() == 0 {
            product + " exited with an error."@
        } else {
            trimmed(stderr)
        }
    } else {
        trimmed(stdout)
    }
}

/// The text reported when a run ends.
pub fn final_output(success: bool, stdout: &str, stderr: &str, product: &str) -> (r: String)
    ensures
        r@ == final_output_of(success, stdout@, stderr@, product@),
{
    let out = trim(stdout);
    if !success && out.is_empty() {
        let err = trim(stderr);
        if err.is_empty() {
            String::from_str(product).concat(" exited with an error.")
        } else {
            String::from_str(err)
        }
    } else {
        String::from_str(out)
    }
}

} // verus!
