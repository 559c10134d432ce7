//! How the `git` command line is driven and what its output means: the
//! arguments of each operation, the checked-out branch, the branch list, and
//! the message of a failed command.
use vstd::prelude::*;
use vstd::relations::sorted_by;

use crate::commit::{message_args, CommitMessage, ValidationError};
use crate::domain::{BranchInfo, BranchName};
use crate::order::{lemma_lex_le_order, lex_le, text_le};
use crate::sort::{insertion_sorted, sort_by_le, views};
use crate::status::{decode_lossy, utf8_lossy};
use crate::text::{
    append_chars, blank, chars_eq, chars_of, is_blank, lemma_trim_shape, lines, opt_view,
    split_lines, string_of, texts, trim, trim_chars,
};

verus! {

// ───────────────────────── operations ─────────────────────────

/// A change made to a repository with `git`.
pub enum GitOp {
    /// Stage one file.
    StageFile(String),
    /// Unstage one file.
    UnstageFile(String),
    /// Stage every change.
    StageAll,
    /// Unstage every change.
    UnstageAll,
    /// Check out an existing branch.
    SwitchBranch(BranchName),
    /// Create a branch and check it out.
    CreateBranch(BranchName),
    /// Commit the staged changes.
    Commit(CommitMessage),
    /// Replace the last commit by one of the staged changes with this message.
    Amend(CommitMessage),
    /// Delete a merged branch.
    DeleteBranch(BranchName),
    /// Merge a branch into the checked-out one.
    MergeBranch(BranchName),
    /// Fetch from the remotes.
    Fetch,
}

/// `-m` followed by each part, for every part.
pub open spec fn message_flags(parts: Seq<Seq<char>>) -> Seq<Seq<char>>
    decreases parts.len(),
{
    if parts.len() == 0 {
        Seq::empty()
    } else {
        message_flags(parts.drop_last()) + seq!["-m"@, parts.last()]
    }
}

/// The arguments given to `git -C <repository>` for an operation.
pub open spec fn op_args(op: GitOp) -> Seq<Seq<char>> {
    match op {
        GitOp::StageFile(p) => seq!["add"@, "--"@, p@],
        GitOp::UnstageFile(p) => seq!["reset"@, "HEAD"@, "--"@, p@],
        GitOp::StageAll => seq!["add"@, "--all"@],
        GitOp::UnstageAll => seq!["reset"@, "HEAD"@, "--"@, "."@],
        GitOp::SwitchBranch(b) => seq!["switch"@, b@],
        GitOp::CreateBranch(b) => seq!["switch"@, "-c"@, b@],
        GitOp::Commit(m) => seq!["commit"@] + message_flags(message_args(m@)),
        GitOp::Amend(m) => seq!["commit"@, "--amend"@] + message_flags(message_args(m@)),
        GitOp::DeleteBranch(b) => seq!["branch"@, "-d"@, b@],
        GitOp::MergeBranch(b) => seq!["merge"@, b@],
        GitOp::Fetch => seq!["fetch"@],
    }
}

/// The views of a list of strings.
pub open spec fn string_views(v: Seq<String>) -> Seq<Seq<char>> {
    v.map_values(|s: String| s@)
}

fn text(s: &str) -> (r: String)
    ensures
        r@ == s@,
{
    string_of(&chars_of(s))
}

/// Appends `-m` and each part of the message.
fn push_message_flags(v: &mut Vec<String>, m: &CommitMessage)
    ensures
        string_views(final(v)@) == string_views(old(v)@) + message_flags(message_args(m@)),
{
    let parts = m.git_message_args();
    let ghost start = string_views(v@);
    let mut i: usize = 0;
    proof {
        assert(string_views(v@) =~= start + message_flags(string_views(parts@).take(0)));
    }
    while i < parts.len()
        invariant
            i <= parts@.len(),
            string_views(parts@) == message_args(m@),
            string_views(v@) == start + message_flags(string_views(parts@).take(i as int)),
        decreases parts@.len() - i,
    {
        let ghost before = string_views(v@);
        v.push(text("-m"));
        v.push(parts[i].clone());
        proof {
            let t = string_views(parts@).take(i + 1);
            assert(t.drop_last() =~= string_views(parts@).take(i as int));
            assert(string_views(v@) =~= before + seq!["-m"@, t.last()]);
            assert(start + message_flags(t) =~= start + message_flags(t.drop_last()) + seq!["-m"@, t.last()]);
        }
        i = i + 1;
    }
    proof {
        assert(string_views(parts@).take(i as int) =~= string_views(parts@));
    }
}

/// The arguments of an operation (`op_args`).
pub fn git_args(op: &GitOp) -> (r: Vec<String>)
    ensures
        string_views(r@) == op_args(*op),
{
    let mut v: Vec<String> = Vec::new();
    match op {
        GitOp::StageFile(p) => {
            v.push(text("add"));
            v.push(text("--"));
            v.push(p.clone());
        },
        GitOp::UnstageFile(p) => {
            v.push(text("reset"));
            v.push(text("HEAD"));
            v.push(text("--"));
            v.push(p.clone());
        },
        GitOp::StageAll => {
            v.push(text("add"));
            v.push(text("--all"));
        },
        GitOp::UnstageAll => {
            v.push(text("reset"));
            v.push(text("HEAD"));
            v.push(text("--"));
            v.push(text("."));
        },
        GitOp::SwitchBranch(b) => {
            v.push(text("switch"));
            v.push(text(b.as_str()));
        },
        GitOp::CreateBranch(b) => {
            v.push(text("switch"));
            v.push(text("-c"));
            v.push(text(b.as_str()));
        },
        GitOp::Commit(m) => {
            v.push(text("commit"));
            push_message_flags(&mut v, m);
        },
        GitOp::Amend(m) => {
            v.push(text("commit"));
            v.push(text("--amend"));
            push_message_flags(&mut v, m);
        },
        GitOp::DeleteBranch(b) => {
            v.push(text("branch"));
            v.push(text("-d"));
            v.push(text(b.as_str()));
        },
        GitOp::MergeBranch(b) => {
            v.push(text("merge"));
            v.push(text(b.as_str()));
        },
        GitOp::Fetch => {
            v.push(text("fetch"));
        },
    }
    proof {
        assert(string_views(v@) =~= op_args(*op));
    }
    v
}

// ───────────────────────── output ─────────────────────────

/// The checked-out branch named by `git branch --show-current`: the trimmed
/// output, none when it is empty (a detached head).
pub open spec fn current_branch_of(out: Seq<u8>) -> Option<Seq<char>> {
    let t = trim(utf8_lossy(out));
    if t.len() == 0 {
        None
    } else {
        Some(t)
    }
}

/// Reads the output of `git branch --show-current` (`current_branch_of`).
pub fn parse_current_branch(stdout: &[u8]) -> (r: Option<String>)
    ensures
        match r {
            Some(b) => current_branch_of(stdout@) == Some(b@),
            None => current_branch_of(stdout@) is None,
        },
{
    let decoded = decode_lossy(stdout);
    let t = trim_chars(&chars_of(decoded.as_str()));
    if t.len() == 0 {
        None
    } else {
        Some(string_of(&t))
    }
}

/// The trimmed lines that are not blank, in order.
pub open spec fn listed_names(ls: Seq<Seq<char>>) -> Seq<Seq<char>>
    decreases ls.len(),
{
    if ls.len() == 0 {
        Seq::empty()
    } else if is_blank(ls.last()) {
        listed_names(ls.drop_last())
    } else {
        listed_names(ls.drop_last()).push(trim(ls.last()))
    }
}

/// The branches `git branch --format=%(refname:short)` lists, each marked
/// checked out when it is `current`, followed by `current` when it is not
/// listed.
pub open spec fn branch_entries(out: Seq<u8>, current: Option<Seq<char>>) -> Seq<(Seq<char>, bool)> {
    let listed = listed_names(lines(utf8_lossy(out)));
    let marked = listed.map_values(|n: Seq<char>| (n, current == Some(n)));
    match current {
        Some(c) => if listed.contains(c) {
            marked
        } else {
            marked.push((c, true))
        },
        None => marked,
    }
}

/// The branch list cannot be built: the checked-out branch is not listed and
/// its name is blank.
pub open spec fn branch_list_fails(out: Seq<u8>, current: Option<Seq<char>>) -> bool {
    match current {
        Some(c) => !listed_names(lines(utf8_lossy(out))).contains(c) && is_blank(c),
        None => false,
    }
}

/// Branches ordered by name.
pub open spec fn by_name(a: (Seq<char>, bool), b: (Seq<char>, bool)) -> bool {
    lex_le(a.0, b.0)
}

/// Every listed name is trimmed and not blank.
proof fn lemma_listed_names_valid(ls: Seq<Seq<char>>)
    ensures
        forall|i: int|
            0 <= i < listed_names(ls).len() ==> !is_blank(#[trigger] listed_names(ls)[i])
                && trim(listed_names(ls)[i]) == listed_names(ls)[i],
    decreases ls.len(),
{
    if ls.len() > 0 {
        lemma_listed_names_valid(ls.drop_last());
        lemma_trim_shape(ls.last());
        let r = listed_names(ls.drop_last());
        if !is_blank(ls.last()) {
            assert forall|i: int| 0 <= i < listed_names(ls).len() implies !is_blank(
                #[trigger] listed_names(ls)[i],
            ) && trim(listed_names(ls)[i]) == listed_names(ls)[i] by {
                if i < r.len() {
                    assert(listed_names(ls)[i] == r[i]);
                }
            }
        }
    }
}

fn branch_le(a: &BranchInfo, b: &BranchInfo) -> (r: bool)
    ensures
        r == by_name(a@, b@),
{
    text_le(&chars_of(a.name.as_str()), &chars_of(b.name.as_str()))
}

proof fn lemma_by_name_preorder()
    ensures
        forall|x: (Seq<char>, bool)| #[trigger] by_name(x, x),
        forall|x: (Seq<char>, bool), y: (Seq<char>, bool), z: (Seq<char>, bool)|
            #[trigger] by_name(x, y) && #[trigger] by_name(y, z) ==> by_name(x, z),
        forall|x: (Seq<char>, bool), y: (Seq<char>, bool)|
            #[trigger] by_name(x, y) || #[trigger] by_name(y, x),
{
    assert forall|x: (Seq<char>, bool)| #[trigger] by_name(x, x) by {
        lemma_lex_le_order(x.0, x.0, x.0);
    }
    assert forall|x: (Seq<char>, bool), y: (Seq<char>, bool), z: (Seq<char>, bool)|
        #[trigger] by_name(x, y) && #[trigger] by_name(y, z) implies by_name(x, z) by {
        lemma_lex_le_order(x.0, y.0, z.0);
    }
    assert forall|x: (Seq<char>, bool), y: (Seq<char>, bool)|
        #[trigger] by_name(x, y) || #[trigger] by_name(y, x) by {
        lemma_lex_le_order(x.0, y.0, y.0);
    }
}

/// Whether `names` holds `n`.
fn holds_name(names: &Vec<Vec<char>>, n: &Vec<char>) -> (r: bool)
    ensures
        r == texts(names@).contains(n@),
{
    let mut i: usize = 0;
    while i < names.len()
        invariant
            i <= names@.len(),
            forall|j: int| 0 <= j < i ==> texts(names@)[j] != n@,
        decreases names@.len() - i,
    {
        if chars_eq(&names[i], n) {
            proof {
                assert(texts(names@)[i as int] == n@);
            }
            return true;
        }
        i = i + 1;
    }
    false
}

/// Reads the output of `git branch --format=%(refname:short)` given the
/// checked-out branch: the branches of `branch_entries` ordered by name, or
/// `EmptyBranchName` when `branch_list_fails`.
pub fn parse_branches(stdout: &[u8], current: Option<String>) -> (r: Result<
    Vec<BranchInfo>,
    ValidationError,
>)
    ensures
        r is Err <==> branch_list_fails(stdout@, opt_view(current)),
        r matches Err(e) ==> e == ValidationError::EmptyBranchName,
        r matches Ok(bs) ==> {
            let entries = branch_entries(stdout@, opt_view(current));
            &&& views(bs@) == insertion_sorted(
                entries,
                |a: (Seq<char>, bool), b: (Seq<char>, bool)| by_name(a, b),
            )
            &&& views(bs@).to_multiset() == entries.to_multiset()
            &&& bs@.len() == entries.len()
            &&& sorted_by(views(bs@), |a: (Seq<char>, bool), b: (Seq<char>, bool)| by_name(a, b))
        },
{
    let ghost cur: Option<Seq<char>> = opt_view(current);
    let decoded = decode_lossy(stdout);
    let ls = split_lines(&chars_of(decoded.as_str()));
    let ghost all = texts(ls@);
    let mut names: Vec<Vec<char>> = Vec::new();
    let mut branches: Vec<BranchInfo> = Vec::new();
    let mut i: usize = 0;
    proof {
        assert(all.take(0) =~= Seq::<Seq<char>>::empty());
    }
    while i < ls.len()
        invariant
            i <= ls@.len(),
            all == texts(ls@),
            all == lines(utf8_lossy(stdout@)),
            cur == opt_view(current),
            texts(names@) == listed_names(all.take(i as int)),
            views(branches@) == listed_names(all.take(i as int)).map_values(
                |n: Seq<char>| (n, cur == Some(n)),
            ),
        decreases ls@.len() - i,
    {
        let line = &ls[i];
        proof {
            assert(all.take(i + 1).drop_last() =~= all.take(i as int));
            assert(all[i as int] == line@);
            assert(all.take(i + 1).last() == line@);
        }
        if !blank(line) {
            let t = trim_chars(line);
            proof {
                lemma_trim_shape(line@);
            }
            let is_current = match &current {
                Some(c) => chars_eq(&chars_of(c.as_str()), &t),
                None => false,
            };
            let name = match BranchName::parse(string_of(&t)) {
                Ok(n) => n,
                Err(e) => {
                    return Err(e);
                },
            };
            let ghost before_b = views(branches@);
            let ghost before_n = texts(names@);
            branches.push(BranchInfo { name, is_current });
            names.push(t);
            proof {
                assert(texts(names@) =~= before_n.push(t@));
                assert(views(branches@) =~= before_b.push((t@, cur == Some(t@))));
                assert(views(branches@) =~= listed_names(all.take(i + 1)).map_values(
                    |n: Seq<char>| (n, cur == Some(n)),
                ));
            }
        }
        i = i + 1;
    }
    proof {
        assert(all.take(i as int) =~= all);
        lemma_listed_names_valid(all);
    }
    let ghost listed = listed_names(all);
    match current {
        Some(c) => {
            let cc = chars_of(c.as_str());
            if !holds_name(&names, &cc) {
                let name = match BranchName::parse(c) {
                    Ok(n) => n,
                    Err(e) => {
                        return Err(e);
                    },
                };
                branches.push(BranchInfo { name, is_current: true });
            }
        },
        None => {},
    }
    proof {
        assert(views(branches@) =~= branch_entries(stdout@, cur));
        lemma_by_name_preorder();
    }
    let sorted = sort_by_le(
        branches,
        branch_le,
        Ghost(|a: (Seq<char>, bool), b: (Seq<char>, bool)| by_name(a, b)),
    );
    Ok(sorted)
}

// ───────────────────────── failures ─────────────────────────

/// What a failed command reports: its trimmed error output, else its
/// trimmed standard output, else `command failed with status <status>`.
pub open spec fn failure_message(stderr: Seq<u8>, stdout: Seq<u8>, status: Seq<char>) -> Seq<char> {
    let e = trim(utf8_lossy(stderr));
    let o = trim(utf8_lossy(stdout));
    if e.len() > 0 {
        e
    } else if o.len() > 0 {
        o
    } else {
        "command failed with status "@ + status
    }
}

/// The message of a command that exited unsuccessfully (`failure_message`),
/// given the text of its exit status.
pub fn command_failure_message(stderr: &[u8], stdout: &[u8], status: &str) -> (r: String)
    ensures
        r@ == failure_message(stderr@, stdout@, status@),
{
    let e = trim_chars(&chars_of(decode_lossy(stderr).as_str()));
    if e.len() > 0 {
        return string_of(&e);
    }
    let o = trim_chars(&chars_of(decode_lossy(stdout).as_str()));
    if o.len() > 0 {
        return string_of(&o);
    }
    let mut m = chars_of("command failed with status ");
    append_chars(&mut m, &chars_of(status));
    string_of(&m)
}

} // verus!
