//! The repository side: which staged files are worth showing a model, the
//! arguments of the git commands run, and how their output is read (merge
//! conflicts, remotes, branches, tags).
use vstd::prelude::*;
use crate::text::{chars_of, string_of, push_str, trim, trim_exec, lines, lines_exec, views, words, words_exec, eq_str, eq_vec, contains, contains_exec, ends_with, ends_with_exec, starts_with, starts_with_exec, strip_prefixes, strip_prefixes_exec, strip_suffixes, strip_suffixes_exec, split, split_exec, lemma_views_push};
use crate::paths::{file_name, file_name_exec};
use crate::testgen::string_views;

verus! {

/// An error of a git operation, with the message of its cause.
#[derive(Debug, Clone)]
pub enum GitError {
    /// The repository could not be found.
    Discovery(String),
    /// A command could not be run.
    Io(String),
    /// Output was not UTF-8.
    Utf8(String),
    /// A path was not UTF-8.
    Utf8Str(String),
    /// A git command failed, with what it printed.
    Cmd(String),
}

pub open spec fn git_error_text(e: GitError) -> Seq<char> {
    match e {
        GitError::Discovery(m) => "Git discovery error: "@ + m@,
        GitError::Io(m) => "IO error: "@ + m@,
        GitError::Utf8(m) => "Utf8 error: "@ + m@,
        GitError::Utf8Str(m) => "Utf8 slice error: "@ + m@,
        GitError::Cmd(m) => "Git command failed: "@ + m@,
    }
}

impl GitError {
    /// The error as it is shown to the user.
    pub fn message(&self) -> (r: String)
        ensures
            r@ == git_error_text(*self),
    {
        let mut t: Vec<char> = Vec::new();
        match self {
            GitError::Discovery(m) => {
                push_str(&mut t, "Git discovery error: ");
                push_str(&mut t, m.as_str());
            },
            GitError::Io(m) => {
                push_str(&mut t, "IO error: ");
                push_str(&mut t, m.as_str());
            },
            GitError::Utf8(m) => {
                push_str(&mut t, "Utf8 error: ");
                push_str(&mut t, m.as_str());
            },
            GitError::Utf8Str(m) => {
                push_str(&mut t, "Utf8 slice error: ");
                push_str(&mut t, m.as_str());
            },
            GitError::Cmd(m) => {
                push_str(&mut t, "Git command failed: ");
                push_str(&mut t, m.as_str());
            },
        }
        string_of(&t)
    }
}

/// File names whose changes say nothing to a reader: lock files, source
/// maps, and images.
pub open spec fn ignored_name(n: Seq<char>) -> bool {
    ||| n == "package-lock.json"@
    ||| n == "yarn.lock"@
    ||| n == "Cargo.lock"@
    ||| n == "pnpm-lock.yaml"@
    ||| n == "go.sum"@
    ||| ends_with(n, ".map"@)
    ||| ends_with(n, ".svg"@)
    ||| ends_with(n, ".png"@)
    ||| ends_with(n, ".jpg"@)
}

/// Whether a staged path is left out of the diff shown to the model.
pub open spec fn is_ignored_path(p: Seq<char>) -> bool {
    match file_name(p) {
        Some(n) => ignored_name(n),
        None => false,
    }
}

pub fn is_ignored(path: &str) -> (r: bool)
    ensures
        r == is_ignored_path(path@),
{
    match file_name_exec(&chars_of(path)) {
        Some(n) => {
            eq_str(&n, "package-lock.json") || eq_str(&n, "yarn.lock") || eq_str(&n, "Cargo.lock")
                || eq_str(&n, "pnpm-lock.yaml") || eq_str(&n, "go.sum") || ends_with_exec(
                &n,
                &chars_of(".map"),
            ) || ends_with_exec(&n, &chars_of(".svg")) || ends_with_exec(&n, &chars_of(".png"))
                || ends_with_exec(&n, &chars_of(".jpg"))
        },
        None => false,
    }
}

/// The staged paths whose diff is shown, in index order.
pub open spec fn shown_paths(ps: Seq<Seq<char>>) -> Seq<Seq<char>>
    decreases ps.len(),
{
    if ps.len() == 0 {
        seq![]
    } else if is_ignored_path(ps.last()) {
        shown_paths(ps.drop_last())
    } else {
        shown_paths(ps.drop_last()).push(ps.last())
    }
}

pub fn staged_paths(paths: &Vec<String>) -> (r: Vec<String>)
    ensures
        string_views(r@) == shown_paths(string_views(paths@)),
{
    let ghost pv = string_views(paths@);
    let mut out: Vec<String> = Vec::new();
    let mut i: usize = 0;
    while i < paths.len()
        invariant
            i <= paths.len(),
            pv == string_views(paths@),
            string_views(out@) == shown_paths(pv.take(i as int)),
        decreases paths.len() - i,
    {
        assert(pv.take(i + 1).drop_last() =~= pv.take(i as int));
        let p = &paths[i];
        if !is_ignored(p.as_str()) {
            let ghost before = string_views(out@);
            out.push(string_of(&chars_of(p.as_str())));
            assert(string_views(out@) =~= before.push(p@));
        }
        i = i + 1;
    }
    assert(pv.take(paths.len() as int) =~= pv);
    out
}

fn args_of(parts: Vec<&str>) -> (r: Vec<String>)
    ensures
        string_views(r@) == parts@.map_values(|x: &str| x@),
{
    let mut out: Vec<String> = Vec::new();
    let mut i: usize = 0;
    while i < parts.len()
        invariant
            i <= parts.len(),
            string_views(out@) == parts@.take(i as int).map_values(|x: &str| x@),
        decreases parts.len() - i,
    {
        let ghost before = string_views(out@);
        out.push(String::from_str(parts[i]));
        assert(string_views(out@) =~= before.push(parts@[i as int]@));
        assert(parts@.take(i + 1).map_values(|x: &str| x@) =~= parts@.take(i as int).map_values(
            |x: &str| x@,
        ).push(parts@[i as int]@));
        i = i + 1;
    }
    assert(parts@.take(parts.len() as int) =~= parts@);
    out
}

/// `git diff --cached -- <files>`.
pub fn staged_diff_args(files: &Vec<String>) -> (r: Vec<String>)
    ensures
        string_views(r@) == seq!["diff"@, "--cached"@, "--"@] + string_views(files@),
{
    let mut out = args_of(vec!["diff", "--cached", "--"]);
    let mut i: usize = 0;
    assert(string_views(out@) =~= seq!["diff"@, "--cached"@, "--"@] + string_views(files@.take(0)));
    while i < files.len()
        invariant
            i <= files.len(),
            string_views(out@) == seq!["diff"@, "--cached"@, "--"@] + string_views(files@.take(i as int)),
        decreases files.len() - i,
    {
        let ghost before = string_views(out@);
        out.push(string_of(&chars_of(files[i].as_str())));
        assert(string_views(out@) =~= before.push(files@[i as int]@));
        assert(string_views(files@.take(i + 1)) =~= string_views(files@.take(i as int)).push(files@[i as int]@));
        i = i + 1;
    }
    assert(files@.take(files.len() as int) =~= files@);
    out
}

/// `git commit -m <message>`.
pub fn commit_args(message: &str) -> (r: Vec<String>)
    ensures
        string_views(r@) == seq!["commit"@, "-m"@, message@],
{
    let r = args_of(vec!["commit", "-m", message]);
    assert(string_views(r@) =~= seq!["commit"@, "-m"@, message@]);
    r
}

/// `git push --set-upstream origin <branch>`, for a branch without one.
pub fn upstream_push_args(branch: &str) -> (r: Vec<String>)
    ensures
        string_views(r@) == seq!["push"@, "--set-upstream"@, "origin"@, branch@],
{
    let r = args_of(vec!["push", "--set-upstream", "origin", branch]);
    assert(string_views(r@) =~= seq!["push"@, "--set-upstream"@, "origin"@, branch@]);
    r
}

/// Whether a failed push failed for want of an upstream branch.
pub fn needs_upstream(stderr: &str) -> (r: bool)
    ensures
        r == contains(stderr@, "no upstream branch"@),
{
    contains_exec(&chars_of(stderr), &chars_of("no upstream branch"))
}

/// The format of the commits listed for a pull request.
pub open spec fn pr_log_format() -> Seq<char> {
    "--pretty=format:Commit: %h%nMessage: %s%nBody: %b%n---"@
}

/// `git log <base>..HEAD --no-merges` in the pull-request format, where the
/// base is `origin/<main>` or, as a fallback, the local `<main>`.
pub fn pr_log_args(main_branch: &str, from_origin: bool) -> (r: Vec<String>)
    ensures
        string_views(r@) == seq![
            "log"@,
            (if from_origin { "origin/"@ + main_branch@ } else { main_branch@ }) + "..HEAD"@,
            "--no-merges"@,
            pr_log_format(),
        ],
{
    let mut range: Vec<char> = Vec::new();
    if from_origin {
        push_str(&mut range, "origin/");
    }
    push_str(&mut range, main_branch);
    push_str(&mut range, "..HEAD");
    let mut r: Vec<String> = Vec::new();
    r.push(String::from_str("log"));
    r.push(string_of(&range));
    r.push(String::from_str("--no-merges"));
    r.push(String::from_str("--pretty=format:Commit: %h%nMessage: %s%nBody: %b%n---"));
    assert(string_views(r@) =~= seq![
        "log"@,
        (if from_origin { "origin/"@ + main_branch@ } else { main_branch@ }) + "..HEAD"@,
        "--no-merges"@,
        pr_log_format(),
    ]);
    r
}

/// `git log [<ref>..HEAD] --pretty=format:- %s (%h) --no-merges`.
pub fn commits_since_args(reference: Option<&str>) -> (r: Vec<String>)
    ensures
        string_views(r@) == seq!["log"@] + match reference {
            Some(x) => seq![x@ + "..HEAD"@],
            None => Seq::<Seq<char>>::empty(),
        } + seq!["--pretty=format:- %s (%h)"@, "--no-merges"@],
{
    let mut r: Vec<String> = Vec::new();
    r.push(String::from_str("log"));
    match reference {
        Some(x) => {
            let mut t: Vec<char> = Vec::new();
            push_str(&mut t, x);
            push_str(&mut t, "..HEAD");
            r.push(string_of(&t));
        },
        None => {},
    }
    r.push(String::from_str("--pretty=format:- %s (%h)"));
    r.push(String::from_str("--no-merges"));
    assert(string_views(r@) =~= seq!["log"@] + match reference {
        Some(x) => seq![x@ + "..HEAD"@],
        None => Seq::<Seq<char>>::empty(),
    } + seq!["--pretty=format:- %s (%h)"@, "--no-merges"@]);
    r
}

/// `git merge-tree --write-tree <base> <head>`.
pub fn merge_tree_args(base: &str, head: &str) -> (r: Vec<String>)
    ensures
        string_views(r@) == seq!["merge-tree"@, "--write-tree"@, base@, head@],
{
    let r = args_of(vec!["merge-tree", "--write-tree", base, head]);
    assert(string_views(r@) =~= seq!["merge-tree"@, "--write-tree"@, base@, head@]);
    r
}

/// `git branch --merged <base> --format=%(refname:short)`.
pub fn merged_branches_args(base: &str) -> (r: Vec<String>)
    ensures
        string_views(r@) == seq!["branch"@, "--merged"@, base@, "--format=%(refname:short)"@],
{
    let r = args_of(vec!["branch", "--merged", base, "--format=%(refname:short)"]);
    assert(string_views(r@) =~= seq!["branch"@, "--merged"@, base@, "--format=%(refname:short)"@]);
    r
}

/// `git log <base>..<branch> --oneline -n 5`.
pub fn branch_summary_args(branch: &str, base: &str) -> (r: Vec<String>)
    ensures
        string_views(r@) == seq!["log"@, base@ + ".."@ + branch@, "--oneline"@, "-n"@, "5"@],
{
    let mut range: Vec<char> = Vec::new();
    push_str(&mut range, base);
    push_str(&mut range, "..");
    push_str(&mut range, branch);
    let mut r: Vec<String> = Vec::new();
    r.push(String::from_str("log"));
    r.push(string_of(&range));
    r.push(String::from_str("--oneline"));
    r.push(String::from_str("-n"));
    r.push(String::from_str("5"));
    assert(string_views(r@) =~= seq!["log"@, base@ + ".."@ + branch@, "--oneline"@, "-n"@, "5"@]);
    r
}

/// Whether two branches merge cleanly, and if not, which files conflict.
#[derive(Debug, Clone)]
pub struct MergeResult {
    pub has_conflicts: bool,
    pub conflicted_files: Vec<String>,
}

/// The path of an index entry that `git merge-tree` lists at a conflict
/// stage (`<mode> <object> <stage> <path>`, stage 1 to 3).
pub open spec fn stage_path(l: Seq<char>) -> Option<Seq<char>> {
    let ws = words(l);
    if ws.len() >= 4 && (ws[2] == "1"@ || ws[2] == "2"@ || ws[2] == "3"@) {
        Some(ws[3])
    } else {
        None
    }
}

/// The conflicted paths of `git merge-tree`'s output lines, each once, in
/// the order they first appear.
pub open spec fn conflicted_from(ls: Seq<Seq<char>>) -> Seq<Seq<char>>
    decreases ls.len(),
{
    if ls.len() == 0 {
        seq![]
    } else {
        let prev = conflicted_from(ls.drop_last());
        match stage_path(ls.last()) {
            Some(p) => if prev.contains(p) {
                prev
            } else {
                prev.push(p)
            },
            None => prev,
        }
    }
}

fn stage_path_exec(l: &Vec<char>) -> (r: Option<Vec<char>>)
    ensures
        match r {
            Some(p) => stage_path(l@) == Some(p@),
            None => stage_path(l@) is None,
        },
{
    let ws = words_exec(l);
    proof {
        assert(views(ws@).len() == ws@.len());
    }
    if ws.len() >= 4 {
        assert(views(ws@)[2] == ws@[2]@);
        assert(views(ws@)[3] == ws@[3]@);
        let stage = &ws[2];
        if eq_str(stage, "1") || eq_str(stage, "2") || eq_str(stage, "3") {
            let p = &ws[3];
            return Some(crate::text::slice(p, 0, p.len()));
        }
    }
    None
}

fn contains_view(v: &Vec<String>, x: &Vec<char>) -> (r: bool)
    ensures
        r == string_views(v@).contains(x@),
{
    let mut i: usize = 0;
    while i < v.len()
        invariant
            i <= v.len(),
            forall|k: int| 0 <= k < i ==> string_views(v@)[k] != x@,
        decreases v.len() - i,
    {
        if eq_vec(&chars_of(v[i].as_str()), x) {
            assert(string_views(v@)[i as int] == x@);
            return true;
        }
        i = i + 1;
    }
    false
}

/// Reads `git merge-tree --write-tree`: exit status 0 is a clean merge, 1
/// a merge with conflicts (whose files are listed), anything else an error
/// with what git printed.
pub fn parse_merge_tree(exit_code: Option<i32>, stdout: &str, stderr: &str) -> (r: Result<MergeResult, GitError>)
    ensures
        match exit_code {
            Some(0) => r matches Ok(m) && !m.has_conflicts && m.conflicted_files@.len() == 0,
            Some(1) => r matches Ok(m) && m.has_conflicts && string_views(m.conflicted_files@)
                == conflicted_from(lines(stdout@)),
            _ => r matches Err(GitError::Cmd(e)) && e@ == stderr@,
        },
{
    match exit_code {
        Some(0) => {
            return Ok(MergeResult { has_conflicts: false, conflicted_files: Vec::new() });
        },
        Some(1) => {},
        _ => {
            return Err(GitError::Cmd(string_of(&chars_of(stderr))));
        },
    }
    let ls = lines_exec(&chars_of(stdout));
    let ghost lv = views(ls@);
    let mut files: Vec<String> = Vec::new();
    let mut i: usize = 0;
    while i < ls.len()
        invariant
            i <= ls.len(),
            lv == views(ls@),
            string_views(files@) == conflicted_from(lv.take(i as int)),
        decreases ls.len() - i,
    {
        assert(lv.take(i + 1).drop_last() =~= lv.take(i as int));
        assert(lv.take(i + 1).last() == ls@[i as int]@);
        match stage_path_exec(&ls[i]) {
            Some(p) => {
                if !contains_view(&files, &p) {
                    let ghost before = string_views(files@);
                    files.push(string_of(&p));
                    assert(string_views(files@) =~= before.push(p@));
                }
            },
            None => {},
        }
        i = i + 1;
    }
    assert(lv.take(ls.len() as int) =~= lv);
    Ok(MergeResult { has_conflicts: true, conflicted_files: files })
}

/// The path segments of a remote URL that name its owner and repository:
/// for `git@host:owner/repo`, what follows the first `:` split at `/`; for
/// `https://host/owner/repo`, the segments after the host.
pub open spec fn remote_segments(url: Seq<char>) -> Seq<Seq<char>> {
    if starts_with(url, "git@"@) {
        let after = split(strip_prefixes(url, "git@"@), ":"@);
        split(if after.len() >= 2 { after[1] } else { seq![] }, "/"@)
    } else {
        split(strip_prefixes(url, "https://"@), "/"@).skip(1)
    }
}

/// The owner and repository of the remote URL git printed, without `.git`.
pub open spec fn remote_owner_repo(output: Seq<char>) -> Option<(Seq<char>, Seq<char>)> {
    let parts = remote_segments(trim(output));
    if parts.len() >= 2 {
        Some((parts[0], strip_suffixes(parts[1], ".git"@)))
    } else {
        None
    }
}

pub fn parse_remote_url(output: &str) -> (r: Result<(String, String), GitError>)
    ensures
        match remote_owner_repo(output@) {
            Some((o, n)) => r matches Ok(p) && p.0@ == o && p.1@ == n,
            None => r matches Err(GitError::Cmd(e)) && e@ == "Could not parse remote url"@,
        },
{
    let url = trim_exec(&chars_of(output));
    proof {
        reveal_strlit(":");
        reveal_strlit("/");
    }
    let parts: Vec<Vec<char>> = if starts_with_exec(&url, &chars_of("git@")) {
        let rest = strip_prefixes_exec(&url, &chars_of("git@"));
        let after = split_exec(&rest, &chars_of(":"));
        let second: Vec<char> = if after.len() >= 2 {
            assert(views(after@)[1] == after@[1]@);
            let x = crate::text::slice(&after[1], 0, after[1].len());
            assert(x@ =~= after@[1]@);
            x
        } else {
            Vec::new()
        };
        split_exec(&second, &chars_of("/"))
    } else {
        let rest = strip_prefixes_exec(&url, &chars_of("https://"));
        let all = split_exec(&rest, &chars_of("/"));
        let mut tail: Vec<Vec<char>> = Vec::new();
        let mut k: usize = 1;
        assert(views(all@).len() == all@.len());
        if all.len() > 0 {
            while k < all.len()
                invariant
                    1 <= k <= all.len(),
                    views(tail@) == views(all@).subrange(1, k as int),
                decreases all.len() - k,
            {
                let piece = crate::text::slice(&all[k], 0, all[k].len());
                assert(piece@ =~= all@[k as int]@);
                proof {
                    lemma_views_push(tail@, piece);
                }
                tail.push(piece);
                assert(views(all@).subrange(1, k + 1) =~= views(all@).subrange(1, k as int).push(all@[k as int]@));
                k = k + 1;
            }
            assert(views(all@).subrange(1, all.len() as int) =~= views(all@).skip(1));
        } else {
            assert(views(tail@) =~= views(all@).skip(1));
        }
        assert(views(tail@) == split(strip_prefixes(url@, "https://"@), "/"@).skip(1));
        tail
    };
    assert(views(parts@) == remote_segments(trim(output@)));
    if parts.len() >= 2 {
        assert(views(parts@)[0] == parts@[0]@);
        assert(views(parts@)[1] == parts@[1]@);
        let repo = strip_suffixes_exec(&parts[1], &chars_of(".git"));
        Ok((string_of(&parts[0]), string_of(&repo)))
    } else {
        Err(GitError::Cmd(String::from_str("Could not parse remote url")))
    }
}

/// The lines of `git diff --name-only` that are not blank, as printed.
pub open spec fn nonblank_lines(ls: Seq<Seq<char>>) -> Seq<Seq<char>>
    decreases ls.len(),
{
    if ls.len() == 0 {
        seq![]
    } else if trim(ls.last()).len() == 0 {
        nonblank_lines(ls.drop_last())
    } else {
        nonblank_lines(ls.drop_last()).push(ls.last())
    }
}

/// The files with unstaged changes that `git diff --name-only` printed.
pub fn parse_name_list(output: &str) -> (r: Vec<String>)
    ensures
        string_views(r@) == nonblank_lines(lines(output@)),
{
    let ls = lines_exec(&chars_of(output));
    let ghost lv = views(ls@);
    let mut out: Vec<String> = Vec::new();
    let mut i: usize = 0;
    while i < ls.len()
        invariant
            i <= ls.len(),
            lv == views(ls@),
            string_views(out@) == nonblank_lines(lv.take(i as int)),
        decreases ls.len() - i,
    {
        assert(lv.take(i + 1).drop_last() =~= lv.take(i as int));
        assert(lv.take(i + 1).last() == ls@[i as int]@);
        if trim_exec(&ls[i]).len() > 0 {
            let ghost before = string_views(out@);
            out.push(string_of(&ls[i]));
            assert(string_views(out@) =~= before.push(ls@[i as int]@));
        }
        i = i + 1;
    }
    assert(lv.take(ls.len() as int) =~= lv);
    out
}

/// The branch names of `git branch --format=%(refname:short)` output:
/// each line trimmed, blank ones and `except` left out.
pub open spec fn branch_names(ls: Seq<Seq<char>>, except: Option<Seq<char>>) -> Seq<Seq<char>>
    decreases ls.len(),
{
    if ls.len() == 0 {
        seq![]
    } else {
        let prev = branch_names(ls.drop_last(), except);
        let n = trim(ls.last());
        if n.len() == 0 || except == Some(n) {
            prev
        } else {
            prev.push(n)
        }
    }
}

fn branch_list(output: &str, except: Option<&str>) -> (r: Vec<String>)
    ensures
        string_views(r@) == branch_names(
            lines(output@),
            match except {
                Some(e) => Some(e@),
                None => None,
            },
        ),
{
    let ghost ex = match except {
        Some(e) => Some(e@),
        None => None::<Seq<char>>,
    };
    let ls = lines_exec(&chars_of(output));
    let ghost lv = views(ls@);
    let mut out: Vec<String> = Vec::new();
    let mut i: usize = 0;
    while i < ls.len()
        invariant
            i <= ls.len(),
            lv == views(ls@),
            ex == match except {
                Some(e) => Some(e@),
                None => None::<Seq<char>>,
            },
            string_views(out@) == branch_names(lv.take(i as int), ex),
        decreases ls.len() - i,
    {
        assert(lv.take(i + 1).drop_last() =~= lv.take(i as int));
        assert(lv.take(i + 1).last() == ls@[i as int]@);
        let n = trim_exec(&ls[i]);
        let excluded = match except {
            Some(e) => eq_str(&n, e),
            None => false,
        };
        if n.len() > 0 && !excluded {
            let ghost before = string_views(out@);
            out.push(string_of(&n));
            assert(string_views(out@) =~= before.push(n@));
        }
        i = i + 1;
    }
    assert(lv.take(ls.len() as int) =~= lv);
    out
}

/// The branches `git branch -a` listed.
pub fn parse_branches(output: &str) -> (r: Vec<String>)
    ensures
        string_views(r@) == branch_names(lines(output@), None),
{
    branch_list(output, None)
}

/// The branches `git branch --merged <base>` listed, other than the base.
pub fn parse_merged_branches(output: &str, base: &str) -> (r: Vec<String>)
    ensures
        string_views(r@) == branch_names(lines(output@), Some(base@)),
{
    branch_list(output, Some(base))
}

/// The current branch `git rev-parse --abbrev-ref HEAD` printed.
pub fn parse_current_branch(output: &str) -> (r: String)
    ensures
        r@ == trim(output@),
{
    string_of(&trim_exec(&chars_of(output)))
}

/// The last tag, when `git describe --tags --abbrev=0` succeeded; none when
/// it failed (as it does in a repository without tags).
pub fn parse_last_tag(succeeded: bool, output: &str) -> (r: Option<String>)
    ensures
        match r {
            Some(t) => succeeded && t@ == trim(output@),
            None => !succeeded,
        },
{
    if succeeded {
        Some(parse_current_branch(output))
    } else {
        None
    }
}

/// A merge's conflicted files are listed once each, and each is a path that
/// `git merge-tree` reported at a conflict stage.
pub proof fn lemma_conflicts_listed_once(ls: Seq<Seq<char>>)
    ensures
        conflicted_from(ls).no_duplicates(),
        forall|k: int| 0 <= k < conflicted_from(ls).len() ==> exists|i: int|
            0 <= i < ls.len() && stage_path(#[trigger] ls[i]) == Some(#[trigger] conflicted_from(ls)[k]),
    decreases ls.len(),
{
    if ls.len() > 0 {
        let prev = conflicted_from(ls.drop_last());
        lemma_conflicts_listed_once(ls.drop_last());
        assert forall|k: int| 0 <= k < prev.len() implies exists|i: int|
            0 <= i < ls.len() && stage_path(#[trigger] ls[i]) == Some(#[trigger] prev[k]) by {
            let i = choose|i: int| 0 <= i < ls.drop_last().len() && stage_path(#[trigger] ls.drop_last()[i]) == Some(prev[k]);
            assert(ls[i] == ls.drop_last()[i]);
        }
        match stage_path(ls.last()) {
            Some(p) => {
                if !prev.contains(p) {
                    let cur = prev.push(p);
                    assert forall|a: int, b: int| 0 <= a < cur.len() && 0 <= b < cur.len() && a != b implies cur[a] != cur[b] by {
                        if a == prev.len() as int {
                            assert(prev[b] == cur[b]);
                        } else if b == prev.len() as int {
                            assert(prev[a] == cur[a]);
                        }
                    }
                    assert(stage_path(ls[ls.len() - 1]) == Some(p));
                }
            },
            None => {},
        }
    }
}

/// The branches listed as merged into a base never include the base, and
/// none is blank.
pub proof fn lemma_merged_excludes_base(ls: Seq<Seq<char>>, base: Seq<char>)
    ensures
        forall|k: int| 0 <= k < branch_names(ls, Some(base)).len() ==> (#[trigger] branch_names(ls, Some(base))[k])
            != base && branch_names(ls, Some(base))[k].len() > 0,
    decreases ls.len(),
{
    if ls.len() > 0 {
        lemma_merged_excludes_base(ls.drop_last(), base);
        let prev = branch_names(ls.drop_last(), Some(base));
        let cur = branch_names(ls, Some(base));
        assert forall|k: int| 0 <= k < cur.len() implies (#[trigger] cur[k]) != base && cur[k].len() > 0 by {
            if k < prev.len() {
                assert(cur[k] == prev[k]);
            }
        }
    }
}

/// No path shown to the model is one of the ignored kinds, and every
/// staged path that is not ignored is shown.
pub proof fn lemma_shown_paths(ps: Seq<Seq<char>>)
    ensures
        forall|k: int| 0 <= k < shown_paths(ps).len() ==> !is_ignored_path(#[trigger] shown_paths(ps)[k]),
        forall|i: int| 0 <= i < ps.len() && !is_ignored_path(#[trigger] ps[i]) ==> shown_paths(ps).contains(ps[i]),
    decreases ps.len(),
{
    if ps.len() > 0 {
        lemma_shown_paths(ps.drop_last());
        let prev = shown_paths(ps.drop_last());
        assert forall|i: int| 0 <= i < ps.len() && !is_ignored_path(#[trigger] ps[i]) implies shown_paths(ps).contains(ps[i]) by {
            if i < ps.len() - 1 {
                assert(ps.drop_last()[i] == ps[i]);
                let j = choose|j: int| 0 <= j < prev.len() && prev[j] == ps[i];
                if !is_ignored_path(ps.last()) {
                    assert(prev.push(ps.last())[j] == ps[i]);
                }
            } else {
                assert(prev.push(ps.last())[prev.len() as int] == ps[i]);
            }
        }
    }
}

/// The repository is the second segment of the remote URL with only its
/// trailing `.git` taken off: a segment without that ending is kept whole,
/// dots included, and the owner is the first segment.
pub proof fn lemma_remote_repository(output: Seq<char>)
    ensures
        remote_segments(trim(output)).len() < 2 ==> remote_owner_repo(output) is None,
        remote_segments(trim(output)).len() >= 2 && !ends_with(remote_segments(trim(output))[1], ".git"@)
            ==> remote_owner_repo(output) == Some((remote_segments(trim(output))[0], remote_segments(trim(output))[1])),
        remote_segments(trim(output)).len() >= 2 && ends_with(remote_segments(trim(output))[1], ".git"@) && !ends_with(
            remote_segments(trim(output))[1].take(remote_segments(trim(output))[1].len() - 4),
            ".git"@,
        ) ==> remote_owner_repo(output) == Some(
            (
                remote_segments(trim(output))[0],
                remote_segments(trim(output))[1].take(remote_segments(trim(output))[1].len() - 4),
            ),
        ),
{
    reveal_strlit(".git");
    let parts = remote_segments(trim(output));
    if parts.len() >= 2 && ends_with(parts[1], ".git"@) {
        let s = parts[1];
        let t = s.take(s.len() - 4);
        if !ends_with(t, ".git"@) {
            assert(strip_suffixes(t, ".git"@) == t);
        }
    }
}

/// Every path that an output line of `git merge-tree` lists at stage 1, 2,
/// or 3 (`<mode> <object> <stage> <path>`) is among the conflicted files,
/// whichever side deleted it.
pub proof fn lemma_conflicts_complete(ls: Seq<Seq<char>>, i: int)
    requires
        0 <= i < ls.len(),
        words(ls[i]).len() >= 4,
        words(ls[i])[2] == "1"@ || words(ls[i])[2] == "2"@ || words(ls[i])[2] == "3"@,
    ensures
        conflicted_from(ls).contains(words(ls[i])[3]),
    decreases ls.len(),
{
    let p = words(ls[i])[3];
    let prev = conflicted_from(ls.drop_last());
    if i < ls.len() - 1 {
        assert(ls.drop_last()[i] == ls[i]);
        lemma_conflicts_complete(ls.drop_last(), i);
        let k = choose|k: int| 0 <= k < prev.len() && prev[k] == p;
        match stage_path(ls.last()) {
            Some(q) => if !prev.contains(q) {
                assert(prev.push(q)[k] == p);
            },
            None => {},
        }
    } else {
        assert(stage_path(ls.last()) == Some(p));
        if !prev.contains(p) {
            assert(prev.push(p)[prev.len() as int] == p);
        }
    }
}

/// Every conflicted file is the path of an output line of `git merge-tree`
/// that lists it at stage 1, 2, or 3.
pub proof fn lemma_conflicts_sound(ls: Seq<Seq<char>>, k: int)
    requires
        0 <= k < conflicted_from(ls).len(),
    ensures
        exists|i: int|
            0 <= i < ls.len() && words(#[trigger] ls[i]).len() >= 4 && (words(ls[i])[2] == "1"@ || words(ls[i])[2]
                == "2"@ || words(ls[i])[2] == "3"@) && words(ls[i])[3] == conflicted_from(ls)[k],
{
    lemma_conflicts_listed_once(ls);
    let i = choose|i: int| 0 <= i < ls.len() && stage_path(#[trigger] ls[i]) == Some(conflicted_from(ls)[k]);
    assert(stage_path(ls[i]) == Some(conflicted_from(ls)[k]));
}

} // verus!
