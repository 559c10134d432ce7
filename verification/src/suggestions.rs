//! The context-aware action hints shown in the footer.
use vstd::prelude::*;
use vstd::view::View as _;

use crate::state::{AppState, CreateRepoStep, FileEntry, Modal, View};
use crate::status::FileSection;

verus! {

/// A key and what it does.
#[derive(Clone, Copy, Debug)]
pub struct Suggestion {
    pub label: &'static str,
    pub key_hint: &'static str,
}

/// A hint as plain texts: (key, label).
pub open spec fn hint(s: Suggestion) -> (Seq<char>, Seq<char>) {
    (s.key_hint@, s.label@)
}

/// The hints of a list of suggestions.
pub open spec fn hints(v: Seq<Suggestion>) -> Seq<(Seq<char>, Seq<char>)> {
    v.map_values(|s: Suggestion| hint(s))
}

/// Whether some row of the file list is in a group.
pub open spec fn has_rows(es: Seq<FileEntry>, sec: FileSection) -> bool {
    exists|i: int| 0 <= i < es.len() && (#[trigger] es[i]).section == sec
}

/// Whether the branch selection names a branch of the selected repository.
pub open spec fn branch_selected(s: AppState) -> bool {
    &&& s.current_repo() is Some
    &&& (s.selected_branch as nat) < s.filtered_branches@.len()
    &&& (s.filtered_branches@[s.selected_branch as int] as nat) < s.current_repo()->0.branches@.len()
}

/// Hints of the "create GitHub repository" dialog.
pub open spec fn create_repo_hints(step: CreateRepoStep) -> Seq<(Seq<char>, Seq<char>)> {
    match step {
        CreateRepoStep::Owner | CreateRepoStep::RepoName => seq![
            ("Enter"@, "next"@),
            ("Esc"@, "back"@),
        ],
        CreateRepoStep::Visibility => seq![
            ("Space"@, "toggle"@),
            ("Enter"@, "next"@),
            ("Esc"@, "back"@),
        ],
        CreateRepoStep::Confirm => seq![("Enter"@, "create"@), ("Esc"@, "back"@)],
    }
}

/// Hints of the Changes view.
pub open spec fn changes_hints(s: AppState) -> Seq<(Seq<char>, Seq<char>)> {
    if s.repos@.len() == 0 {
        seq![("r"@, "refresh"@), ("?"@, "help"@)]
    } else {
        let es = s.grouped_files.entries@;
        let has_unstaged = has_rows(es, FileSection::Unstaged) || has_rows(
            es,
            FileSection::Untracked,
        );
        let has_staged = has_rows(es, FileSection::Staged);
        (if has_unstaged {
            seq![("Space"@, "stage"@), ("S"@, "stage all"@)]
        } else {
            Seq::empty()
        }) + (if has_staged {
            seq![("c"@, "commit"@)]
        } else {
            Seq::empty()
        }) + (if !has_unstaged && !has_staged {
            seq![("n"@, "new branch"@), ("b"@, "switch branch"@)]
        } else {
            Seq::empty()
        }) + seq![("B"@, "branches"@), ("L"@, "log"@)] + (if s.current_repo() is Some
            && !s.current_repo()->0.has_origin_remote {
            seq![("R"@, "create repo"@)]
        } else {
            Seq::empty()
        }) + seq![("?"@, "help"@)]
    }
}

/// Hints of the pull request view.
pub open spec fn pr_hints(s: AppState) -> Seq<(Seq<char>, Seq<char>)> {
    (if s.current_repo() is Some && s.current_repo()->0.pull_requests@.len() > 0 {
        seq![("j/k"@, "navigate"@), ("Enter"@, "open in browser"@)]
    } else {
        Seq::empty()
    }) + seq![("r"@, "refresh PRs"@), ("?"@, "help"@)]
}

/// Hints of the branches view.
pub open spec fn branches_hints(s: AppState) -> Seq<(Seq<char>, Seq<char>)> {
    (if branch_selected(s) {
        seq![("Enter"@, "switch"@), ("d"@, "delete"@), ("m"@, "merge"@)]
    } else {
        Seq::empty()
    }) + seq![("n"@, "new branch"@), ("Esc"@, "close"@)]
}

/// The hints for the current state: the open dialog's, else the active view's.
pub open spec fn suggestion_hints(s: AppState) -> Seq<(Seq<char>, Seq<char>)> {
    match s.modal {
        Modal::BranchSwitch => seq![("j/k"@, "move"@), ("Enter"@, "switch"@), ("Esc"@, "cancel"@)],
        Modal::BranchCreate => seq![("Enter"@, "create"@), ("Esc"@, "cancel"@)],
        Modal::Commit => seq![("Enter"@, "commit"@), ("Ctrl+n"@, "newline"@), ("Esc"@, "cancel"@)],
        Modal::CopilotLogin => seq![("Esc"@, "cancel"@)],
        Modal::CreateRepo(step) => create_repo_hints(step),
        Modal::Closed => match s.active_view {
            View::Changes => changes_hints(s),
            View::Pr => pr_hints(s),
            View::Branches => branches_hints(s),
            View::Commits => seq![
                ("j/k"@, "navigate"@),
                ("Ctrl+d/u"@, "scroll detail"@),
                ("Esc"@, "close"@),
            ],
            View::Settings => seq![
                ("j/k"@, "navigate"@),
                ("Space"@, "toggle"@),
                ("+/-"@, "adjust"@),
                ("Esc"@, "close"@),
            ],
        },
    }
}

fn s(key_hint: &'static str, label: &'static str) -> (r: Suggestion)
    ensures
        r.key_hint == key_hint,
        r.label == label,
{
    Suggestion { label, key_hint }
}

fn push(v: &mut Vec<Suggestion>, x: Suggestion)
    ensures
        hints(final(v)@) == hints(old(v)@).push(hint(x)),
{
    v.push(x);
    proof {
        assert(hints(v@) =~= hints(old(v)@).push(hint(x)));
    }
}

/// The footer hints for the current state (`suggestion_hints`).
pub fn compute_suggestions(state: &AppState) -> (r: Vec<Suggestion>)
    ensures
        hints(r@) == suggestion_hints(*state),
{
    let mut v: Vec<Suggestion> = Vec::new();
    match state.modal {
        Modal::BranchSwitch => {
            push(&mut v, s("j/k", "move"));
            push(&mut v, s("Enter", "switch"));
            push(&mut v, s("Esc", "cancel"));
        },
        Modal::BranchCreate => {
            push(&mut v, s("Enter", "create"));
            push(&mut v, s("Esc", "cancel"));
        },
        Modal::Commit => {
            push(&mut v, s("Enter", "commit"));
            push(&mut v, s("Ctrl+n", "newline"));
            push(&mut v, s("Esc", "cancel"));
        },
        Modal::CopilotLogin => {
            push(&mut v, s("Esc", "cancel"));
        },
        Modal::CreateRepo(step) => {
            return compute_create_repo_suggestions(&step);
        },
        Modal::Closed => {
            return match state.active_view {
                View::Changes => compute_changes_suggestions(state),
                View::Pr => compute_pr_suggestions(state),
                View::Branches => compute_branches_suggestions(state),
                View::Commits => {
                    push(&mut v, s("j/k", "navigate"));
                    push(&mut v, s("Ctrl+d/u", "scroll detail"));
                    push(&mut v, s("Esc", "close"));
                    proof {
                        assert(hints(v@) =~= suggestion_hints(*state));
                    }
                    v
                },
                View::Settings => {
                    push(&mut v, s("j/k", "navigate"));
                    push(&mut v, s("Space", "toggle"));
                    push(&mut v, s("+/-", "adjust"));
                    push(&mut v, s("Esc", "close"));
                    proof {
                        assert(hints(v@) =~= suggestion_hints(*state));
                    }
                    v
                },
            };
        },
    }
    proof {
        assert(hints(v@) =~= suggestion_hints(*state));
    }
    v
}

fn compute_branches_suggestions(state: &AppState) -> (r: Vec<Suggestion>)
    ensures
        hints(r@) == branches_hints(*state),
{
    let mut v: Vec<Suggestion> = Vec::new();
    let ghost start = hints(v@);
    if state.selected_branch_name().is_some() {
        push(&mut v, s("Enter", "switch"));
        push(&mut v, s("d", "delete"));
        push(&mut v, s("m", "merge"));
    }
    push(&mut v, s("n", "new branch"));
    push(&mut v, s("Esc", "close"));
    proof {
        assert(hints(v@) =~= branches_hints(*state));
    }
    v
}

fn compute_changes_suggestions(state: &AppState) -> (r: Vec<Suggestion>)
    ensures
        hints(r@) == changes_hints(*state),
{
    let mut v: Vec<Suggestion> = Vec::new();
    if state.repos.len() == 0 {
        push(&mut v, s("r", "refresh"));
        push(&mut v, s("?", "help"));
        proof {
            assert(hints(v@) =~= changes_hints(*state));
        }
        return v;
    }
    let has_unstaged = state.grouped_files.has_section(FileSection::Unstaged)
        || state.grouped_files.has_section(FileSection::Untracked);
    let has_staged = state.grouped_files.has_section(FileSection::Staged);
    let ghost p0 = hints(v@);
    if has_unstaged {
        push(&mut v, s("Space", "stage"));
        push(&mut v, s("S", "stage all"));
    }
    let ghost p1 = hints(v@);
    if has_staged {
        push(&mut v, s("c", "commit"));
    }
    let ghost p2 = hints(v@);
    if !has_unstaged && !has_staged {
        push(&mut v, s("n", "new branch"));
        push(&mut v, s("b", "switch branch"));
    }
    push(&mut v, s("B", "branches"));
    push(&mut v, s("L", "log"));
    let no_origin = match state.selected_repo_ref() {
        Some(repo) => !repo.has_origin_remote,
        None => false,
    };
    if no_origin {
        push(&mut v, s("R", "create repo"));
    }
    push(&mut v, s("?", "help"));
    proof {
        assert(hints(v@) =~= changes_hints(*state));
    }
    v
}

fn compute_pr_suggestions(state: &AppState) -> (r: Vec<Suggestion>)
    ensures
        hints(r@) == pr_hints(*state),
{
    let mut v: Vec<Suggestion> = Vec::new();
    let has_prs = match state.selected_repo_ref() {
        Some(repo) => repo.pull_requests.len() > 0,
        None => false,
    };
    if has_prs {
        push(&mut v, s("j/k", "navigate"));
        push(&mut v, s("Enter", "open in browser"));
    }
    push(&mut v, s("r", "refresh PRs"));
    push(&mut v, s("?", "help"));
    proof {
        assert(hints(v@) =~= pr_hints(*state));
    }
    v
}

fn compute_create_repo_suggestions(step: &CreateRepoStep) -> (r: Vec<Suggestion>)
    ensures
        hints(r@) == create_repo_hints(*step),
{
    let mut v: Vec<Suggestion> = Vec::new();
    match step {
        CreateRepoStep::Owner | CreateRepoStep::RepoName => {
            push(&mut v, s("Enter", "next"));
            push(&mut v, s("Esc", "back"));
        },
        CreateRepoStep::Visibility => {
            push(&mut v, s("Space", "toggle"));
            push(&mut v, s("Enter", "next"));
            push(&mut v, s("Esc", "back"));
        },
        CreateRepoStep::Confirm => {
            push(&mut v, s("Enter", "create"));
            push(&mut v, s("Esc", "back"));
        },
    }
    proof {
        assert(hints(v@) =~= create_repo_hints(*step));
    }
    v
}

} // verus!
