//! The file listing of a project: a walk of its directory tree down to a
//! fixed depth that leaves out version-control, dependency and build
//! directories. Reading a directory is the caller's part.

use vstd::prelude::*;
use vstd::seq_lib::*;
use crate::text::{chars_of, push_char, views};

verus! {

/// One entry of a directory, as the caller read it.
#[derive(Debug)]
pub struct DirEntryInfo {
    pub name: String,
    pub is_dir: bool,
}

/// The deepest level below the project root whose entries are listed.
pub const MAX_LISTING_DEPTH: usize = 3;

/// Entries that are neither listed nor entered.
pub open spec fn is_skipped(name: Seq<char>) -> bool {
    name == ".git"@ || name == "node_modules"@ || name == "target"@ || name == ".next"@ || name
        == "dist"@
}

/// The path of `name` relative to the project root, given the relative path
/// of its directory (empty for the root itself).
pub open spec fn child_path(rel: Seq<char>, name: Seq<char>) -> Seq<char> {
    if rel.len() == 0 {
        name
    } else {
        rel.push('/') + name
    }
}

/// A path as shown: every backslash turned into a forward slash.
pub open spec fn slashed(s: Seq<char>) -> Seq<char> {
    s.map_values(|c: char| if c == '\\' { '/' } else { c })
}

/// `read` answered the request for the directory `rel` with `Err(e)`.
pub open spec fn read_failed<F: Fn(&str) -> Result<Vec<DirEntryInfo>, String>>(
    read: F,
    e: String,
) -> bool {
    exists|x: &str| #[trigger] read.ensures((x,), Err(e))
}

/// `read` answered the request for `rel`, asked as `x`, with `entries`, and
/// `out` is made of `parts`, one for each entry.
pub open spec fn read_as<F: Fn(&str) -> Result<Vec<DirEntryInfo>, String>>(
    read: F,
    rel: Seq<char>,
    out: Seq<Seq<char>>,
    x: &str,
    entries: Vec<DirEntryInfo>,
    parts: Seq<Seq<Seq<char>>>,
) -> bool {
    &&& x@ == rel
    &&& read.ensures((x,), Ok(entries))
    &&& parts.len() == entries@.len()
    &&& out == parts.flatten()
}

/// The first line of the piece of a listing that the entry `e` of the
/// directory `rel` contributes: nothing for a skipped entry, else its shown
/// path, alone unless `e` is a directory.
pub open spec fn entry_head(rel: Seq<char>, e: DirEntryInfo, part: Seq<Seq<char>>) -> bool {
    if is_skipped(e.name@) {
        part == Seq::<Seq<char>>::empty()
    } else {
        &&& part.len() >= 1
        &&& part[0] == slashed(child_path(rel, e.name@))
        &&& !e.is_dir ==> part.len() == 1
    }
}

/// `e` is a directory that is listed and entered.
pub open spec fn entered(e: DirEntryInfo) -> bool {
    !is_skipped(e.name@) && e.is_dir
}

/// `out` lists the directory `rel`, found at `depth` below the root: nothing
/// below `max`; otherwise, for each entry that `read` gave for `rel`, in
/// order, the entry's shown path followed by the listing of its contents
/// when it is a directory.
pub open spec fn listing<F: Fn(&str) -> Result<Vec<DirEntryInfo>, String>>(
    read: F,
    rel: Seq<char>,
    depth: nat,
    max: nat,
    out: Seq<Seq<char>>,
) -> bool
    decreases max + 1 - depth,
{
    if depth > max {
        out == Seq::<Seq<char>>::empty()
    } else {
        exists|x: &str, entries: Vec<DirEntryInfo>, parts: Seq<Seq<Seq<char>>>|
            #[trigger] read_as(read, rel, out, x, entries, parts) && forall|k: int|
                0 <= k < parts.len() ==> entry_head(rel, entries@[k], #[trigger] parts[k]) && (
                entered(entries@[k]) ==> listing(
                    read,
                    child_path(rel, entries@[k].name@),
                    depth + 1,
                    max,
                    parts[k].drop_first(),
                ))
    }
}

proof fn lemma_listing_from_entries<F: Fn(&str) -> Result<Vec<DirEntryInfo>, String>>(
    read: F,
    x: &str,
    depth: nat,
    max: nat,
    entries: Vec<DirEntryInfo>,
    parts: Seq<Seq<Seq<char>>>,
)
    requires
        depth <= max,
        read_as(read, x@, parts.flatten(), x, entries, parts),
        forall|k: int|
            0 <= k < parts.len() ==> entry_head(x@, entries@[k], #[trigger] parts[k]) && (entered(
                entries@[k],
            ) ==> listing(read, child_path(x@, entries@[k].name@), depth + 1, max, parts[k].drop_first())),
    ensures
        listing(read, x@, depth, max, parts.flatten()),
{
}

/// `read` answered the request for `rel`, asked as `x`, with `entries`; the
/// entries before index `parts.len()` contributed `parts`, and `out` is
/// those pieces followed by `tail`, the piece of the entry at that index.
pub open spec fn read_until<F: Fn(&str) -> Result<Vec<DirEntryInfo>, String>>(
    read: F,
    rel: Seq<char>,
    out: Seq<Seq<char>>,
    x: &str,
    entries: Vec<DirEntryInfo>,
    parts: Seq<Seq<Seq<char>>>,
    tail: Seq<Seq<char>>,
) -> bool {
    &&& x@ == rel
    &&& read.ensures((x,), Ok(entries))
    &&& parts.len() < entries@.len()
    &&& out == parts.flatten() + tail
}

/// The walk of the directory `rel`, found at `depth` below the root, failed
/// with `e` after appending `out`: either reading `rel` itself failed with
/// `e` and nothing was appended; or `rel` was read, the entries before some
/// directory entry were listed in full as in `listing`, that directory's
/// shown path was appended, and the walk of that directory failed with `e`.
/// Directories below `max` are never read, so no walk fails there.
pub open spec fn failed_listing<F: Fn(&str) -> Result<Vec<DirEntryInfo>, String>>(
    read: F,
    rel: Seq<char>,
    depth: nat,
    max: nat,
    out: Seq<Seq<char>>,
    e: String,
) -> bool
    decreases max + 1 - depth,
{
    if depth > max {
        false
    } else {
        ||| out == Seq::<Seq<char>>::empty() && exists|x: &str|
            x@ == rel && #[trigger] read.ensures((x,), Err(e))
        ||| exists|
            x: &str,
            entries: Vec<DirEntryInfo>,
            parts: Seq<Seq<Seq<char>>>,
            tail: Seq<Seq<char>>,
        |
            #[trigger] read_until(read, rel, out, x, entries, parts, tail) && (forall|k: int|
                0 <= k < parts.len() ==> entry_head(rel, entries@[k], #[trigger] parts[k]) && (
                entered(entries@[k]) ==> listing(
                    read,
                    child_path(rel, entries@[k].name@),
                    depth + 1,
                    max,
                    parts[k].drop_first(),
                ))) && entered(entries@[parts.len() as int]) && tail.len() >= 1 && tail[0]
                == slashed(child_path(rel, entries@[parts.len() as int].name@)) && failed_listing(
                read,
                child_path(rel, entries@[parts.len() as int].name@),
                depth + 1,
                max,
                tail.drop_first(),
                e,
            )
    }
}

/// `after` is `before` followed by what a failed walk of `rel` appended.
pub open spec fn failed_walk<F: Fn(&str) -> Result<Vec<DirEntryInfo>, String>>(
    read: F,
    rel: Seq<char>,
    depth: nat,
    max: nat,
    before: Seq<Seq<char>>,
    after: Seq<Seq<char>>,
    e: String,
) -> bool {
    exists|out: Seq<Seq<char>>| #[trigger] failed_listing(read, rel, depth, max, out, e) && after == before + out
}

/// Some walk of `rel` fails with `e`.
pub open spec fn walk_fails<F: Fn(&str) -> Result<Vec<DirEntryInfo>, String>>(
    read: F,
    rel: Seq<char>,
    depth: nat,
    max: nat,
    e: String,
) -> bool {
    exists|out: Seq<Seq<char>>| #[trigger] failed_listing(read, rel, depth, max, out, e)
}

/// A walk fails only with an error that `read` itself reported for some
/// directory.
pub proof fn lemma_failure_comes_from_read<F: Fn(&str) -> Result<Vec<DirEntryInfo>, String>>(
    read: F,
    rel: Seq<char>,
    depth: nat,
    max: nat,
    out: Seq<Seq<char>>,
    e: String,
)
    requires
        failed_listing(read, rel, depth, max, out, e),
    ensures
        read_failed(read, e),
    decreases max + 1 - depth,
{
    if out == Seq::<Seq<char>>::empty() && exists|x: &str| x@ == rel && #[trigger] read.ensures((x,), Err(e)) {
        let x = choose|x: &str| x@ == rel && #[trigger] read.ensures((x,), Err(e));
        assert(read.ensures((x,), Err(e)));
    } else {
        let (x, entries, parts, tail) = choose|
            x: &str,
            entries: Vec<DirEntryInfo>,
            parts: Seq<Seq<Seq<char>>>,
            tail: Seq<Seq<char>>,
        |
            #[trigger] read_until(read, rel, out, x, entries, parts, tail) && (forall|k: int|
                0 <= k < parts.len() ==> entry_head(rel, entries@[k], #[trigger] parts[k]) && (
                entered(entries@[k]) ==> listing(
                    read,
                    child_path(rel, entries@[k].name@),
                    depth + 1,
                    max,
                    parts[k].drop_first(),
                ))) && entered(entries@[parts.len() as int]) && tail.len() >= 1 && tail[0]
                == slashed(child_path(rel, entries@[parts.len() as int].name@)) && failed_listing(
                read,
                child_path(rel, entries@[parts.len() as int].name@),
                depth + 1,
                max,
                tail.drop_first(),
                e,
            );
        lemma_failure_comes_from_read(
            read,
            child_path(rel, entries@[parts.len() as int].name@),
            depth + 1,
            max,
            tail.drop_first(),
            e,
        );
    }
}

proof fn lemma_failure_at<F: Fn(&str) -> Result<Vec<DirEntryInfo>, String>>(
    read: F,
    x: &str,
    depth: nat,
    max: nat,
    e: String,
)
    requires
        depth <= max,
        read.ensures((x,), Err(e)),
    ensures
        failed_listing(read, x@, depth, max, Seq::<Seq<char>>::empty(), e),
{
}

proof fn lemma_failure_inside<F: Fn(&str) -> Result<Vec<DirEntryInfo>, String>>(
    read: F,
    x: &str,
    depth: nat,
    max: nat,
    entries: Vec<DirEntryInfo>,
    parts: Seq<Seq<Seq<char>>>,
    tail: Seq<Seq<char>>,
    e: String,
)
    requires
        depth <= max,
        read_until(read, x@, parts.flatten() + tail, x, entries, parts, tail),
        forall|k: int|
            0 <= k < parts.len() ==> entry_head(x@, entries@[k], #[trigger] parts[k]) && (entered(
                entries@[k],
            ) ==> listing(read, child_path(x@, entries@[k].name@), depth + 1, max, parts[k].drop_first())),
        entered(entries@[parts.len() as int]),
        tail.len() >= 1,
        tail[0] == slashed(child_path(x@, entries@[parts.len() as int].name@)),
        failed_listing(
            read,
            child_path(x@, entries@[parts.len() as int].name@),
            depth + 1,
            max,
            tail.drop_first(),
            e,
        ),
    ensures
        failed_listing(read, x@, depth, max, parts.flatten() + tail, e),
{
}

fn skipped(name: &String) -> (r: bool)
    ensures
        r == is_skipped(name@),
{
    *name == String::from_str(".git") || *name == String::from_str("node_modules") || *name
        == String::from_str("target") || *name == String::from_str(".next") || *name
        == String::from_str("dist")
}

fn child_rel(rel: &str, name: &str) -> (r: String)
    ensures
        r@ == child_path(rel@, name@),
{
    let mut r = String::from_str(rel);
    if !rel.is_empty() {
        push_char(&mut r, '/');
    }
    r.append(name);
    r
}

fn slash_path(s: &str) -> (r: String)
    ensures
        r@ == slashed(s@),
{
    let chars = chars_of(s);
    let mut r = String::new();
    let mut i: usize = 0;
    while i < chars.len()
        invariant
            i <= chars@.len(),
            chars@ == s@,
            r@ == slashed(chars@.take(i as int)),
        decreases chars@.len() - i,
    {
        let c = chars[i];
        push_char(&mut r, if c == '\\' { '/' } else { c });
        assert(slashed(chars@.take(i + 1)) =~= slashed(chars@.take(i as int)).push(
            if c == '\\' { '/' } else { c },
        ));
        i = i + 1;
    }
    assert(chars@.take(i as int) =~= chars@);
    r
}

/// Appends the listing of the directory `rel` to `files`.
fn collect_files<F: Fn(&str) -> Result<Vec<DirEntryInfo>, String>>(
    read: &F,
    rel: &str,
    depth: usize,
    max: usize,
    files: &mut Vec<String>,
) -> (r: Result<(), String>)
    requires
        forall|x: &str| read.requires((x,)),
        depth <= max + 1,
        max < usize::MAX,
    ensures
        depth > max ==> r is Ok && views(final(files)@) == views(old(files)@),
        match r {
            Ok(()) => exists|out: Seq<Seq<char>>|
                #[trigger] listing(*read, rel@, depth as nat, max as nat, out) && views(final(files)@)
                    == views(old(files)@) + out,
            Err(e) => failed_walk(
                *read,
                rel@,
                depth as nat,
                max as nat,
                views(old(files)@),
                views(final(files)@),
                e,
            ),
        },
    decreases max + 1 - depth,
{
    if depth > max {
        assert(views(files@) =~= views(files@) + Seq::<Seq<char>>::empty());
        assert(listing(*read, rel@, depth as nat, max as nat, Seq::<Seq<char>>::empty()));
        return Ok(());
    }
    let entries = match read(rel) {
        Ok(entries) => entries,
        Err(e) => {
            proof {
                lemma_failure_at(*read, rel, depth as nat, max as nat, e);
                assert(failed_listing(*read, rel@, depth as nat, max as nat, Seq::<Seq<char>>::empty(), e));
                assert(views(files@) =~= views(old(files)@) + Seq::<Seq<char>>::empty());
                assert(failed_walk(
                    *read,
                    rel@,
                    depth as nat,
                    max as nat,
                    views(old(files)@),
                    views(files@),
                    e,
                ));
            }
            return Err(e);
        },
    };
    let ghost start = views(files@);
    let ghost mut parts: Seq<Seq<Seq<char>>> = Seq::empty();
    let mut k: usize = 0;
    while k < entries.len()
        invariant
            forall|x: &str| read.requires((x,)),
            depth <= max,
            max < usize::MAX,
            read.ensures((rel,), Ok(entries)),
            start == views(old(files)@),
            k <= entries@.len(),
            parts.len() == k,
            views(files@) == start + parts.flatten(),
            forall|j: int|
                0 <= j < k ==> entry_head(rel@, entries@[j], #[trigger] parts[j]) && (entered(
                    entries@[j],
                ) ==> listing(
                    *read,
                    child_path(rel@, entries@[j].name@),
                    (depth + 1) as nat,
                    max as nat,
                    parts[j].drop_first(),
                )),
        decreases entries@.len() - k,
    {
        let e = &entries[k];
        let ghost part: Seq<Seq<char>>;
        if skipped(&e.name) {
            proof {
                part = Seq::empty();
            }
        } else {
            let child = child_rel(rel, e.name.as_str());
            let shown = slash_path(child.as_str());
            let ghost before = views(files@);
            let ghost shown_view = shown@;
            files.push(shown);
            assert(views(files@) =~= before.push(shown_view));
            if e.is_dir {
                let ghost before_sub = views(files@);
                let cs = child.as_str();
                match collect_files(read, cs, depth + 1, max, files) {
                    Ok(()) => {
                        let ghost out = choose|out: Seq<Seq<char>>|
                            #[trigger] listing(*read, cs@, (depth + 1) as nat, max as nat, out)
                                && views(files@) == before_sub + out;
                        proof {
                            part = seq![shown_view] + out;
                            assert(part.drop_first() =~= out);
                        }
                    },
                    Err(err) => {
                        proof {
                            let sub = choose|sub: Seq<Seq<char>>|
                                #[trigger] failed_listing(
                                    *read,
                                    cs@,
                                    (depth + 1) as nat,
                                    max as nat,
                                    sub,
                                    err,
                                ) && views(files@) == before_sub + sub;
                            let tail = seq![shown_view] + sub;
                            assert(tail.drop_first() =~= sub);
                            assert(views(files@) =~= start + (parts.flatten() + tail));
                            lemma_failure_inside(
                                *read,
                                rel,
                                depth as nat,
                                max as nat,
                                entries,
                                parts,
                                tail,
                                err,
                            );
                            assert(failed_walk(
                                *read,
                                rel@,
                                depth as nat,
                                max as nat,
                                views(old(files)@),
                                views(files@),
                                err,
                            ));
                        }
                        return Err(err);
                    },
                }
            } else {
                proof {
                    part = seq![shown_view];
                }
            }
        }
        proof {
            assert(entry_head(rel@, entries@[k as int], part));
            parts.lemma_flatten_push(part);
            assert(views(files@) =~= start + parts.push(part).flatten());
            parts = parts.push(part);
        }
        k = k + 1;
    }
    assert(read_as(*read, rel@, parts.flatten(), rel, entries, parts));
    proof {
        lemma_listing_from_entries(*read, rel, depth as nat, max as nat, entries, parts);
    }
    Ok(())
}

/// Lists a project's files and directories, relative to its root and with
/// forward slashes, each directory followed by its contents, down to
/// `MAX_LISTING_DEPTH` levels below the root. `read` gives the entries of
/// the directory at a relative path (empty for the root). The walk stops at
/// the first directory whose read fails, returns that error and drops what
/// was listed so far; a walk in which every read succeeds returns `Ok`.
pub fn list_project_files<F: Fn(&str) -> Result<Vec<DirEntryInfo>, String>>(read: &F) -> (r:
    Result<Vec<String>, String>)
    requires
        forall|x: &str| read.requires((x,)),
    ensures
        match r {
            Ok(files) => listing(*read, Seq::empty(), 0, MAX_LISTING_DEPTH as nat, views(files@)),
            Err(e) => walk_fails(*read, Seq::empty(), 0, MAX_LISTING_DEPTH as nat, e),
        },
{
    let mut files: Vec<String> = Vec::new();
    let ghost empty = views(files@);
    assert(empty =~= Seq::<Seq<char>>::empty());
    match collect_files(read, "", 0, MAX_LISTING_DEPTH, &mut files) {
        Ok(()) => {
            proof {
                let out = choose|out: Seq<Seq<char>>|
                    #[trigger] listing(*read, ""@, 0, MAX_LISTING_DEPTH as nat, out) && views(files@)
                        == empty + out;
                assert(views(files@) =~= out);
                assert(""@ =~= Seq::<char>::empty()) by {
                    reveal_strlit("");
                }
            }
            Ok(files)
        },
        Err(e) => {
            proof {
                assert(""@ =~= Seq::<char>::empty()) by {
                    reveal_strlit("");
                }
                let out = choose|out: Seq<Seq<char>>|
                    #[trigger] failed_listing(*read, ""@, 0, MAX_LISTING_DEPTH as nat, out, e)
                        && views(files@) == empty + out;
                assert(failed_listing(*read, Seq::empty(), 0, MAX_LISTING_DEPTH as nat, out, e));
                assert(walk_fails(*read, Seq::empty(), 0, MAX_LISTING_DEPTH as nat, e));
            }
            Err(e)
        },
    }
}

} // verus!
