//! Verified parsers for the listings the version-control tool prints: the
//! branch listing, the porcelain worktree listing, and status output.

use vstd::prelude::*;
use vstd::string::StrSliceExecFns;
use vstd::string::StringExecFns;

use crate::git::Branch;
use crate::git::GitError;
use crate::git::Worktree;
use crate::git::WorktreeSpec;
use crate::git::worktree_views;
use crate::text::first_index_of;
use crate::text::find_char_from;
use crate::text::split_lines;
use crate::text::split_lines_spec;
use crate::text::str_eq;
use crate::text::strip_prefix;
use crate::text::trim;
use crate::text::trim_end;
use crate::text::trim_end_spec;
use crate::text::trim_spec;
use crate::text::views_of;

verus! {

/// Whether `s` starts with `p`.
pub open spec fn has_prefix(s: Seq<char>, p: Seq<char>) -> bool {
    s.len() >= p.len() && s.take(p.len() as int) == p
}

/// `name` without a leading `refs/heads/`, when it has one.
pub open spec fn strip_heads_spec(name: Seq<char>) -> Seq<char> {
    if has_prefix(name, "refs/heads/"@) {
        name.skip("refs/heads/"@.len() as int)
    } else {
        name
    }
}

/// The short form of an upstream ref name: a leading `refs/heads/` or
/// `refs/remotes/` is removed, anything else is kept as is.
pub open spec fn short_upstream_name_spec(name: Seq<char>) -> Seq<char> {
    if has_prefix(name, "refs/heads/"@) {
        name.skip("refs/heads/"@.len() as int)
    } else if has_prefix(name, "refs/remotes/"@) {
        name.skip("refs/remotes/"@.len() as int)
    } else {
        name
    }
}

/// Removes a `refs/heads/` or `refs/remotes/` prefix from an upstream name.
pub fn short_upstream_name(name: &str) -> (r: String)
    ensures
        r@ == short_upstream_name_spec(name@),
{
    match strip_prefix(name, "refs/heads/") {
        Some(rest) => rest.to_owned(),
        None => match strip_prefix(name, "refs/remotes/") {
            Some(rest) => rest.to_owned(),
            None => name.to_owned(),
        },
    }
}

/// A worktree is dirty exactly when its porcelain status output is
/// non-empty.
pub fn dirty_from_status_output(output: &str) -> (r: bool)
    ensures
        r == (output@.len() != 0),
{
    output.unicode_len() != 0
}

/// One line of the branch listing: the local name before the first colon,
/// and after it the upstream short name, absent when the field is empty.
pub fn parse_branch_line(line: &str) -> (r: (String, Option<String>))
    ensures
        ({
            let i = first_index_of(line@, ':');
            if i == line@.len() {
                r.0@ == trim_spec(line@) && r.1 is None
            } else {
                r.0@ == trim_spec(line@.take(i)) && ({
                    let u = trim_spec(line@.skip(i + 1));
                    if u.len() == 0 {
                        r.1 is None
                    } else {
                        r.1 matches Some(up) && up@ == u
                    }
                })
            }
        }),
{
    proof {
        crate::text::lemma_first_index_of_bounds(line@, ':');
    }
    let n = line.unicode_len();
    let i = find_char_from(line, 0, ':');
    proof {
        assert(line@.skip(0) =~= line@);
    }
    if i == n {
        let local = trim(line).to_owned();
        (local, None)
    } else {
        proof {
            assert(line@.subrange(0, i as int) =~= line@.take(i as int));
            assert(line@.subrange(i + 1, n as int) =~= line@.skip(i + 1));
        }
        let local = trim(line.substring_char(0, i)).to_owned();
        let upstream_part = trim(line.substring_char(i + 1, n));
        if upstream_part.unicode_len() == 0 {
            (local, None)
        } else {
            (local, Some(upstream_part.to_owned()))
        }
    }
}

/// Whether worktree `w` has branch `name` checked out.
pub open spec fn worktree_holds_branch(w: Worktree, name: Seq<char>) -> bool {
    match w.branch {
        Some(b) => b@ == name,
        None => false,
    }
}

/// The path of the first listed worktree with `name` checked out, if any.
pub fn worktree_path_for(worktrees: &Vec<Worktree>, name: &str) -> (r: Option<String>)
    ensures
        match r {
            Some(p) => exists|i: int|
                0 <= i < worktrees@.len() && worktree_holds_branch(worktrees@[i], name@)
                    && p@ == worktrees@[i].path@,
            None => forall|i: int|
                0 <= i < worktrees@.len() ==> !worktree_holds_branch(worktrees@[i], name@),
        },
{
    let mut i: usize = 0;
    while i < worktrees.len()
        invariant
            0 <= i <= worktrees@.len(),
            forall|j: int| 0 <= j < i ==> !worktree_holds_branch(worktrees@[j], name@),
        decreases worktrees@.len() - i,
    {
        match &worktrees[i].branch {
            Some(b) => {
                if str_eq(b.as_str(), name) {
                    return Some(worktrees[i].path.clone());
                }
            },
            None => {},
        }
        i = i + 1;
    }
    None
}

/// Whether a listing line is blank once trimmed.
pub open spec fn line_is_blank(line: Seq<char>) -> bool {
    trim_spec(line).len() == 0
}

/// The lines of a listing that are not blank, in order.
pub open spec fn nonblank_lines(lines: Seq<Seq<char>>) -> Seq<Seq<char>> {
    lines.filter(|l: Seq<char>| !line_is_blank(l))
}

/// The non-blank lines of a captured branch listing.
pub open spec fn listing_entries(s: Seq<char>) -> Seq<Seq<char>> {
    nonblank_lines(split_lines_spec(s))
}

/// How a worktree is assigned to a branch name: the path of some listed
/// worktree holding the branch, or nothing when none does.
pub open spec fn worktree_assignment(
    wp: Option<String>,
    worktrees: Seq<Worktree>,
    name: Seq<char>,
) -> bool {
    match wp {
        Some(p) => exists|k: int|
            0 <= k < worktrees.len() && worktree_holds_branch(worktrees[k], name) && p@
                == worktrees[k].path@,
        None => forall|k: int|
            0 <= k < worktrees.len() ==> !worktree_holds_branch(worktrees[k], name),
    }
}

/// Whether `b` is the branch one listing line describes: its name is the
/// trimmed text before the first colon; its upstream name is the trimmed
/// text after it, absent when that text is empty; and its worktree is one
/// of the listed worktrees holding it. The upstream's classified state is
/// not fixed here: it comes from the ancestry queries, as
/// [`crate::git::classify_upstream`] states.
pub open spec fn branch_describes_line(b: Branch, line: Seq<char>, worktrees: Seq<Worktree>) -> bool {
    let i = first_index_of(line, ':');
    let name = if i == line.len() {
        trim_spec(line)
    } else {
        trim_spec(line.take(i))
    };
    let upstream_text = if i == line.len() {
        Seq::<char>::empty()
    } else {
        trim_spec(line.skip(i + 1))
    };
    &&& b.refname@ == name
    &&& (upstream_text.len() == 0 ==> b.upstream is None)
    &&& (upstream_text.len() > 0 ==> (b.upstream matches Some(u) && u.name@ == upstream_text))
    &&& worktree_assignment(b.worktree_path, worktrees, name)
}

/// The in-progress worktree entry while the porcelain listing is folded.
pub struct PendingSpec {
    pub path: Option<Seq<char>>,
    pub branch: Option<Seq<char>>,
}

/// The worktree emitted when an entry ends, if its path was seen.
pub open spec fn finish_emit(p: PendingSpec) -> Seq<WorktreeSpec> {
    match p.path {
        Some(path) => seq![WorktreeSpec { path, branch: p.branch }],
        None => Seq::empty(),
    }
}

/// The pending state after an entry ends.
pub open spec fn finish_pending(p: PendingSpec) -> PendingSpec {
    match p.path {
        Some(_) => PendingSpec { path: None, branch: None },
        None => p,
    }
}

/// A porcelain line split at its first space: the key, and the trimmed
/// remainder (empty when the line has no space).
pub open spec fn split_key_value(line: Seq<char>) -> (Seq<char>, Seq<char>) {
    let i = first_index_of(line, ' ');
    if 0 <= i && i < line.len() {
        (line.take(i), trim_spec(line.skip(i + 1)))
    } else {
        (line, Seq::empty())
    }
}

/// Folds the porcelain worktree listing, line by line. A blank line ends the
/// current entry; a `worktree` line ends the current entry and starts a new
/// one (its path must not be empty); a `branch` line with a value records
/// the checked-out branch, shorn of `refs/heads/`; other lines are ignored.
/// `None` stands for a listing with a pathless `worktree` line.
pub open spec fn parse_wt_lines(lines: Seq<Seq<char>>, p: PendingSpec) -> Option<
    Seq<WorktreeSpec>,
>
    decreases lines.len(),
{
    if lines.len() == 0 {
        Some(finish_emit(p))
    } else {
        let line = trim_end_spec(lines[0]);
        let rest = lines.drop_first();
        if line.len() == 0 {
            match parse_wt_lines(rest, finish_pending(p)) {
                Some(tail) => Some(finish_emit(p) + tail),
                None => None,
            }
        } else {
            let kv = split_key_value(line);
            if kv.0 == "worktree"@ {
                if kv.1.len() == 0 {
                    None
                } else {
                    match parse_wt_lines(rest, PendingSpec { path: Some(kv.1), branch: None }) {
                        Some(tail) => Some(finish_emit(p) + tail),
                        None => None,
                    }
                }
            } else if kv.0 == "branch"@ {
                if kv.1.len() > 0 {
                    parse_wt_lines(
                        rest,
                        PendingSpec { path: p.path, branch: Some(strip_heads_spec(kv.1)) },
                    )
                } else {
                    parse_wt_lines(rest, p)
                }
            } else {
                parse_wt_lines(rest, p)
            }
        }
    }
}

/// What parsing the whole worktree listing yields.
pub open spec fn parse_worktrees_spec(s: Seq<char>) -> Option<Seq<WorktreeSpec>> {
    parse_wt_lines(split_lines_spec(s), PendingSpec { path: None, branch: None })
}

/// The view of an optional owned string.
pub open spec fn opt_view(o: Option<String>) -> Option<Seq<char>> {
    match o {
        Some(s) => Some(s@),
        None => None,
    }
}

/// The pending state held by the executable parser.
pub open spec fn pend(path: Option<String>, branch: Option<String>) -> PendingSpec {
    PendingSpec { path: opt_view(path), branch: opt_view(branch) }
}

/// Ends the current entry: emits the pending worktree when its path was
/// seen, and reports the new pending state.
fn flush_pending(out: &mut Vec<Worktree>, path: Option<String>, branch: Option<String>) -> (r: (
    Option<String>,
    Option<String>,
))
    ensures
        worktree_views(final(out)@) == worktree_views(old(out)@) + finish_emit(pend(path, branch)),
        pend(r.0, r.1) == finish_pending(pend(path, branch)),
{
    match path {
        Some(p) => {
            let ghost before = out@;
            out.push(Worktree { path: p, branch });
            proof {
                assert(worktree_views(out@) =~= worktree_views(before) + finish_emit(
                    pend(Some(p), branch),
                ));
            }
            (None, None)
        },
        None => {
            proof {
                assert(worktree_views(out@) =~= worktree_views(out@) + finish_emit(
                    pend(None, branch),
                ));
            }
            (None, branch)
        },
    }
}

/// Parses `git worktree list --porcelain` output into worktrees, in listing
/// order. Fails exactly when some `worktree` line carries no path.
pub fn parse_worktrees(output: &str) -> (r: Result<Vec<Worktree>, GitError>)
    ensures
        match r {
            Ok(v) => parse_worktrees_spec(output@) == Some(worktree_views(v@)),
            Err(e) => parse_worktrees_spec(output@) is None && e == GitError::MissingWorktreePath,
        },
{
    let lines = split_lines(output);
    let mut out: Vec<Worktree> = Vec::new();
    let mut pending_path: Option<String> = None;
    let mut pending_branch: Option<String> = None;
    let mut i: usize = 0;
    proof {
        assert(views_of(lines@).skip(0) =~= views_of(lines@));
        match parse_wt_lines(views_of(lines@), pend(pending_path, pending_branch)) {
            Some(t) => {
                assert(worktree_views(out@) + t =~= t);
            },
            None => {},
        }
    }
    while i < lines.len()
        invariant
            0 <= i <= lines@.len(),
            views_of(lines@) == split_lines_spec(output@),
            parse_worktrees_spec(output@) == match parse_wt_lines(
                views_of(lines@).skip(i as int),
                pend(pending_path, pending_branch),
            ) {
                Some(tail) => Some(worktree_views(out@) + tail),
                None => None::<Seq<WorktreeSpec>>,
            },
        decreases lines@.len() - i,
    {
        let ghost rest = views_of(lines@).skip(i as int);
        let ghost rest1 = views_of(lines@).skip(i as int + 1);
        let ghost p_old = pend(pending_path, pending_branch);
        let ghost out_old = worktree_views(out@);
        proof {
            assert(rest.len() > 0);
            assert(rest[0] == lines@[i as int]@);
            assert(rest.drop_first() =~= rest1);
        }
        let line = trim_end(lines[i].as_str());
        let n = line.unicode_len();
        if n == 0 {
            let flushed = flush_pending(&mut out, pending_path, pending_branch);
            pending_path = flushed.0;
            pending_branch = flushed.1;
            proof {
                match parse_wt_lines(rest1, pend(pending_path, pending_branch)) {
                    Some(t) => {
                        assert(out_old + (finish_emit(p_old) + t) =~= worktree_views(out@) + t);
                    },
                    None => {},
                }
            }
        } else {
            let j = find_char_from(line, 0, ' ');
            proof {
                assert(line@.skip(0) =~= line@);
                crate::text::lemma_first_index_of_bounds(line@, ' ');
            }
            let key: &str;
            let value: &str;
            if j < n {
                proof {
                    assert(line@.subrange(0, j as int) =~= line@.take(j as int));
                    assert(line@.subrange(j + 1, n as int) =~= line@.skip(j + 1));
                }
                key = line.substring_char(0, j);
                value = trim(line.substring_char(j + 1, n));
            } else {
                key = line;
                value = "";
                proof {
                    reveal_strlit("");
                    assert(""@ =~= Seq::<char>::empty());
                }
            }
            let ghost kv = split_key_value(line@);
            proof {
                assert(kv.0 == key@);
                assert(kv.1 == value@);
            }
            if str_eq(key, "worktree") {
                if value.unicode_len() == 0 {
                    return Err(GitError::MissingWorktreePath);
                }
                let flushed = flush_pending(&mut out, pending_path, pending_branch);
                let _ = flushed;
                pending_path = Some(value.to_owned());
                pending_branch = None;
                proof {
                    match parse_wt_lines(rest1, pend(pending_path, pending_branch)) {
                        Some(t) => {
                            assert(out_old + (finish_emit(p_old) + t) =~= worktree_views(out@)
                                + t);
                        },
                        None => {},
                    }
                }
            } else if str_eq(key, "branch") {
                if value.unicode_len() > 0 {
                    pending_branch = Some(short_heads_only(value));
                }
            } else {
                // an ignored porcelain key, such as HEAD
            }
        }
        i = i + 1;
    }
    proof {
        assert(views_of(lines@).skip(lines@.len() as int).len() == 0);
    }
    let flushed = flush_pending(&mut out, pending_path, pending_branch);
    let _ = flushed;
    Ok(out)
}

/// Removes only a `refs/heads/` prefix, as the worktree listing uses.
fn short_heads_only(name: &str) -> (r: String)
    ensures
        r@ == strip_heads_spec(name@),
{
    match strip_prefix(name, "refs/heads/") {
        Some(rest) => rest.to_owned(),
        None => name.to_owned(),
    }
}

} // verus!
