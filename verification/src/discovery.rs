//! Repositories found under a directory: how each is described and the
//! order in which they are listed.
use vstd::prelude::*;
use vstd::relations::sorted_by;

use crate::domain::{RepositoryId, RepositorySummary};
use crate::order::{components, cur_comp, lemma_comps_le_order, path_le, path_le_exec};
use crate::sort::{insertion_sorted, sort_by_le, total_preorder, views};
use crate::text::{chars_eq, chars_of, opt_view, string_of};

verus! {

/// What `Path::strip_prefix` leaves of `path` after the leading components
/// of `root`, or none when `root` is not a prefix of it.
pub uninterp spec fn path_without_prefix(path: Seq<char>, root: Seq<char>) -> Option<Seq<char>>;

/// What `Path::file_name` gives for a path: its last component, none when
/// the path ends in `..` or has no component.
pub uninterp spec fn path_file_name(path: Seq<char>) -> Option<Seq<char>>;

/// `Path::strip_prefix`: the contract names the result.
#[verifier::external_body]
fn strip_path_prefix(path: &str, root: &str) -> (r: Option<String>)
    ensures
        opt_view(r) == path_without_prefix(path@, root@),
{
    std::path::Path::new(path).strip_prefix(root).ok().map(|p| p.to_string_lossy().to_string())
}

/// `Path::file_name`: the contract names the result.
#[verifier::external_body]
fn file_name(path: &str) -> (r: Option<String>)
    ensures
        opt_view(r) == path_file_name(path@),
{
    std::path::Path::new(path).file_name().map(|n| n.to_string_lossy().to_string())
}

/// An empty relative path means the searched directory itself: `.`.
pub open spec fn dot_if_empty(p: Seq<char>) -> Seq<char> {
    if p.len() == 0 {
        "."@
    } else {
        p
    }
}

/// A relative path, `.` when it is empty.
pub fn relative_or_dot(path: &str) -> (r: String)
    ensures
        r@ == dot_if_empty(path@),
{
    let p = chars_of(path);
    if p.len() == 0 {
        string_of(&chars_of("."))
    } else {
        string_of(&p)
    }
}

/// The path shown for a repository: relative to the searched directory when
/// it lies under it (`.` for that directory), else the canonical path.
pub open spec fn shown_path(root: Seq<char>, canonical: Seq<char>) -> Seq<char> {
    match path_without_prefix(canonical, root) {
        Some(rel) => dot_if_empty(rel),
        None => canonical,
    }
}

/// The name of a repository: its directory's name, else the whole path.
pub open spec fn repository_name(canonical: Seq<char>) -> Seq<char> {
    match path_file_name(canonical) {
        Some(n) => n,
        None => canonical,
    }
}

/// Describes the repository at `canonical_path`, found under `root`.
pub fn to_repository_summary(root: &str, canonical_path: String) -> (r: RepositorySummary)
    ensures
        r.id.0@ == canonical_path@,
        r.path@ == canonical_path@,
        r.relative_path@ == shown_path(root@, canonical_path@),
        r.name@ == repository_name(canonical_path@),
{
    let relative_path = match strip_path_prefix(canonical_path.as_str(), root) {
        Some(rel) => relative_or_dot(rel.as_str()),
        None => canonical_path.clone(),
    };
    let name = match file_name(canonical_path.as_str()) {
        Some(n) => n,
        None => canonical_path.clone(),
    };
    RepositorySummary {
        id: RepositoryId(canonical_path.clone()),
        name,
        path: canonical_path,
        relative_path,
    }
}

/// Whether a relative path names the searched directory itself.
pub open spec fn is_dot(p: Seq<char>) -> bool {
    components(p) == seq![cur_comp()]
}

/// Listing order of repositories: the searched directory first, then by
/// relative path.
pub open spec fn listed_before(a: RepositorySummary, b: RepositorySummary) -> bool {
    if is_dot(a.relative_path@) && !is_dot(b.relative_path@) {
        true
    } else if !is_dot(a.relative_path@) && is_dot(b.relative_path@) {
        false
    } else {
        path_le(a.relative_path@, b.relative_path@)
    }
}

proof fn lemma_listed_before_preorder()
    ensures
        total_preorder(|a: RepositorySummary, b: RepositorySummary| listed_before(a, b)),
{
    assert forall|x: RepositorySummary| listed_before(x, x) by {
        let c = components(x.relative_path@);
        lemma_comps_le_order(c, c, c);
    }
    assert forall|x: RepositorySummary, y: RepositorySummary, z: RepositorySummary|
        listed_before(x, y) && listed_before(y, z) implies listed_before(x, z) by {
        lemma_comps_le_order(
            components(x.relative_path@),
            components(y.relative_path@),
            components(z.relative_path@),
        );
    }
    assert forall|x: RepositorySummary, y: RepositorySummary|
        listed_before(x, y) || listed_before(y, x) by {
        let c = components(x.relative_path@);
        let d = components(y.relative_path@);
        lemma_comps_le_order(c, d, d);
    }
}

/// Whether a relative path is `.` once split into components.
fn dot_path(p: &String) -> (r: bool)
    ensures
        r == is_dot(p@),
{
    let cs = crate::order::path_components(&chars_of(p.as_str()));
    if cs.len() != 1 {
        proof {
            assert(crate::text::texts(cs@).len() != seq![cur_comp()].len());
        }
        return false;
    }
    let dot = vec!['.'];
    let same = chars_eq(&cs[0], &dot);
    proof {
        assert(dot@ =~= cur_comp());
        assert(crate::text::texts(cs@)[0] == cs@[0]@);
        if same {
            assert(crate::text::texts(cs@) =~= seq![cur_comp()]);
        } else {
            assert(crate::text::texts(cs@)[0] != seq![cur_comp()][0]);
        }
    }
    same
}

fn summary_le(a: &RepositorySummary, b: &RepositorySummary) -> (r: bool)
    ensures
        r == listed_before(*a, *b),
{
    let da = dot_path(&a.relative_path);
    let db = dot_path(&b.relative_path);
    if da && !db {
        true
    } else if !da && db {
        false
    } else {
        path_le_exec(&a.relative_path, &b.relative_path)
    }
}

/// Orders discovered repositories for listing (`listed_before`).
pub fn sort_repositories(repos: Vec<RepositorySummary>) -> (r: Vec<RepositorySummary>)
    ensures
        r@ == insertion_sorted(repos@, |a: RepositorySummary, b: RepositorySummary| listed_before(a, b)),
        r@.to_multiset() == repos@.to_multiset(),
        r@.len() == repos@.len(),
        sorted_by(r@, |a: RepositorySummary, b: RepositorySummary| listed_before(a, b)),
{
    proof {
        lemma_listed_before_preorder();
    }
    let sorted = sort_by_le(
        repos,
        summary_le,
        Ghost(|a: RepositorySummary, b: RepositorySummary| listed_before(a, b)),
    );
    proof {
        assert(views(sorted@) =~= sorted@);
        assert(views(repos@) =~= repos@);
    }
    sorted
}

/// The repositories recorded so far during a search, each canonical path
/// at most once, in the order they were found.
pub struct DiscoveredRepositories {
    repos: Vec<RepositorySummary>,
}

/// The canonical paths of summaries.
pub open spec fn canonical_paths(rs: Seq<RepositorySummary>) -> Seq<Seq<char>> {
    rs.map_values(|r: RepositorySummary| r.path@)
}

impl DiscoveredRepositories {
    /// The repositories recorded, in order.
    pub closed spec fn found(self) -> Seq<RepositorySummary> {
        self.repos@
    }

    /// No canonical path is recorded twice.
    #[verifier::type_invariant]
    spec fn distinct_paths(self) -> bool {
        canonical_paths(self.repos@).no_duplicates()
    }

    /// Nothing recorded yet.
    pub fn new() -> (r: DiscoveredRepositories)
        ensures
            r.found() == Seq::<RepositorySummary>::empty(),
    {
        let r = DiscoveredRepositories { repos: Vec::new() };
        proof {
            assert(canonical_paths(r.repos@) =~= Seq::<Seq<char>>::empty());
        }
        r
    }

    /// Whether a repository with this canonical path is recorded.
    pub fn contains(&self, canonical_path: &String) -> (r: bool)
        ensures
            r == canonical_paths(self.found()).contains(canonical_path@),
    {
        let mut i: usize = 0;
        while i < self.repos.len()
            invariant
                i <= self.repos@.len(),
                forall|j: int| 0 <= j < i ==> canonical_paths(self.repos@)[j] != canonical_path@,
            decreases self.repos@.len() - i,
        {
            if self.repos[i].path == *canonical_path {
                proof {
                    assert(canonical_paths(self.repos@)[i as int] == canonical_path@);
                }
                return true;
            }
            i = i + 1;
        }
        false
    }

    /// Records the repository at `canonical_path`, found under `root`, unless
    /// one with that path is recorded already; says whether it was new.
    pub fn record(&mut self, root: &str, canonical_path: String) -> (r: bool)
        ensures
            r == !canonical_paths(old(self).found()).contains(canonical_path@),
            r ==> final(self).found().len() == old(self).found().len() + 1 && final(self).found().drop_last()
                == old(self).found() && final(self).found().last().path@ == canonical_path@
                && final(self).found().last().relative_path@ == shown_path(root@, canonical_path@)
                && final(self).found().last().name@ == repository_name(canonical_path@),
            !r ==> final(self).found() == old(self).found(),
    {
        if self.contains(&canonical_path) {
            return false;
        }
        let summary = to_repository_summary(root, canonical_path);
        proof {
            use_type_invariant(&*self);
            assert(canonical_paths(self.repos@.push(summary)) =~= canonical_paths(self.repos@).push(
                summary.path@,
            ));
        }
        let mut repos: Vec<RepositorySummary> = Vec::new();
        std::mem::swap(&mut repos, &mut self.repos);
        repos.push(summary);
        self.repos = repos;
        proof {
            assert(self.repos@.drop_last() =~= old(self).repos@);
        }
        true
    }

    /// The recorded repositories in listing order (`listed_before`).
    pub fn into_sorted(self) -> (r: Vec<RepositorySummary>)
        ensures
            r@ == insertion_sorted(
                self.found(),
                |a: RepositorySummary, b: RepositorySummary| listed_before(a, b),
            ),
            r@.to_multiset() == self.found().to_multiset(),
            r@.len() == self.found().len(),
            sorted_by(r@, |a: RepositorySummary, b: RepositorySummary| listed_before(a, b)),
    {
        sort_repositories(self.repos)
    }
}

/// Directories named `.git` hold a repository's metadata and are not searched.
pub fn is_git_metadata_dir(name: &str) -> (r: bool)
    ensures
        r == (name@ == ".git"@),
{
    chars_eq(&chars_of(name), &chars_of(".git"))
}

} // verus!
