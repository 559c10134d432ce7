//! Working-tree status: changed files and the parser of
//! `git status --porcelain=v1 -z` output.
use vstd::prelude::*;
use vstd::relations::sorted_by;
use vstd::utf8::{decode_utf8, valid_utf8};

use crate::order::{components, lemma_comps_le_order, nonempty_pieces, path_le, path_le_exec};
use crate::sort::{insertion_sorted, sort_by_le, views};
use crate::text::{occurs_at, split_on};

verus! {

/// The group a changed file is listed under.
#[derive(Clone, Copy, Debug, PartialEq, Eq, Structural, Hash)]
pub enum FileSection {
    Staged,
    Unstaged,
    Untracked,
}

/// A file that differs from `HEAD` or from the index.
#[derive(Clone, Debug, PartialEq, Eq)]
pub struct ChangedFile {
    pub path: String,
    pub staged: bool,
    pub unstaged: bool,
    pub untracked: bool,
    pub status_code: String,
}

/// The plain contents of a `ChangedFile`.
pub struct FileModel {
    pub path: Seq<char>,
    pub staged: bool,
    pub unstaged: bool,
    pub untracked: bool,
    pub status_code: Seq<char>,
}

impl View for ChangedFile {
    type V = FileModel;

    open spec fn view(&self) -> FileModel {
        FileModel {
            path: self.path@,
            staged: self.staged,
            unstaged: self.unstaged,
            untracked: self.untracked,
            status_code: self.status_code@,
        }
    }
}

/// The files of a repository's working tree that have changes.
#[derive(Clone, Debug, Default, PartialEq, Eq)]
pub struct RepositoryStatus {
    pub files: Vec<ChangedFile>,
}

impl RepositoryStatus {
    /// Whether nothing has changed.
    pub fn is_clean(&self) -> (r: bool)
        ensures
            r == (self.files@.len() == 0),
    {
        self.files.len() == 0
    }
}

/// Why `git status` output could not be read.
#[derive(Clone, Copy, Debug, PartialEq, Eq, Structural)]
pub enum StatusParseError {
    /// An entry shorter than its two status letters, a space and a path.
    UnexpectedEntry,
    /// A rename or copy entry without the entry that names its target.
    MissingRenameTarget,
}

impl StatusParseError {
    /// The human-readable description of the error.
    pub fn message(&self) -> (r: &'static str)
        ensures
            *self == StatusParseError::UnexpectedEntry ==> r@ == "unexpected git status entry"@,
            *self == StatusParseError::MissingRenameTarget ==> r@
                == "missing renamed target path in git status output"@,
    {
        match self {
            StatusParseError::UnexpectedEntry => "unexpected git status entry",
            StatusParseError::MissingRenameTarget => "missing renamed target path in git status output",
        }
    }
}

// ───────────────────────── model of the output ─────────────────────────

/// What `String::from_utf8_lossy` makes of a byte sequence.
pub uninterp spec fn utf8_lossy(bytes: Seq<u8>) -> Seq<char>;

/// `String::from_utf8_lossy`: decodes the bytes, replacing each invalid
/// sequence with U+FFFD. The contract names the result, and states what the
/// documentation promises of valid input: it is decoded unchanged.
#[verifier::external_body]
pub(crate) fn decode_lossy(bytes: &[u8]) -> (r: String)
    ensures
        r@ == utf8_lossy(bytes@),
        valid_utf8(bytes@) ==> r@ == decode_utf8(bytes@),
{
    String::from_utf8_lossy(bytes).to_string()
}

/// The NUL-separated entries of the output, empty ones left out.
pub open spec fn status_entries(raw: Seq<u8>) -> Seq<Seq<u8>> {
    nonempty_pieces(split_on(raw, seq![0u8]))
}

/// Whether a status letter marks a rename or a copy.
pub open spec fn is_rename_code(c: char) -> bool {
    c == 'R' || c == 'C'
}

/// The file described by an entry whose path is `path`.
pub open spec fn file_from(e: Seq<u8>, path: Seq<u8>) -> FileModel {
    let s = e[0] as char;
    let u = e[1] as char;
    FileModel {
        path: utf8_lossy(path),
        staged: s != ' ' && s != '?',
        unstaged: u != ' ' || s == '?',
        untracked: s == '?' || u == '?',
        status_code: seq![s, u],
    }
}

/// The files described by a list of entries, in order: each entry has two
/// status letters, a space and a path; a rename or copy takes its path from
/// the entry that follows it.
pub open spec fn parse_entries(es: Seq<Seq<u8>>) -> Result<Seq<FileModel>, StatusParseError>
    decreases es.len(),
{
    if es.len() == 0 {
        Ok(Seq::empty())
    } else {
        let e = es[0];
        if e.len() < 4 {
            Err(StatusParseError::UnexpectedEntry)
        } else if is_rename_code(e[0] as char) || is_rename_code(e[1] as char) {
            if es.len() < 2 {
                Err(StatusParseError::MissingRenameTarget)
            } else {
                match parse_entries(es.skip(2)) {
                    Ok(r) => Ok(seq![file_from(e, es[1])] + r),
                    Err(x) => Err(x),
                }
            }
        } else {
            match parse_entries(es.drop_first()) {
                Ok(r) => Ok(seq![file_from(e, e.skip(3))] + r),
                Err(x) => Err(x),
            }
        }
    }
}

/// Files ordered by path.
pub open spec fn file_path_le(a: FileModel, b: FileModel) -> bool {
    path_le(a.path, b.path)
}

// ───────────────────────── the parser ─────────────────────────

/// The texts of a vector of byte vectors.
pub open spec fn byte_texts(v: Seq<Vec<u8>>) -> Seq<Seq<u8>> {
    v.map_values(|x: Vec<u8>| x@)
}

/// Copies `s[from..to]`.
fn sub_bytes(s: &[u8], from: usize, to: usize) -> (r: Vec<u8>)
    requires
        from <= to <= s@.len(),
    ensures
        r@ == s@.subrange(from as int, to as int),
{
    let mut v: Vec<u8> = Vec::new();
    let mut i = from;
    while i < to
        invariant
            from <= i <= to <= s@.len(),
            v@ == s@.subrange(from as int, i as int),
        decreases to - i,
    {
        v.push(s[i]);
        i = i + 1;
        assert(v@ =~= s@.subrange(from as int, i as int));
    }
    v
}

/// The non-empty NUL-separated entries of the output.
fn split_entries(raw: &[u8]) -> (r: Vec<Vec<u8>>)
    ensures
        byte_texts(r@) == status_entries(raw@),
{
    let ghost pat = seq![0u8];
    let n = raw.len();
    let mut out: Vec<Vec<u8>> = Vec::new();
    let mut start: usize = 0;
    let mut i: usize = 0;
    proof {
        assert(raw@.skip(0) =~= raw@);
        crate::text::lemma_split_on_nonempty(raw@, pat);
        assert(raw@.subrange(0, 0) =~= Seq::<u8>::empty());
    }
    // `done` are the pieces closed so far; the current piece is raw[start..i].
    let ghost mut done: Seq<Seq<u8>> = Seq::empty();
    while i < n
        invariant
            start <= i <= n == raw@.len(),
            pat == seq![0u8],
            split_on(raw@, pat) == done + seq![
                raw@.subrange(start as int, i as int) + split_on(raw@.skip(i as int), pat)[0],
            ] + split_on(raw@.skip(i as int), pat).drop_first(),
            byte_texts(out@) == nonempty_pieces(done),
        decreases n - i,
    {
        let ghost t = raw@.skip(i as int);
        proof {
            assert(t[0] == raw@[i as int]);
            assert(t.subrange(0, 1) =~= seq![t[0]]);
        }
        if raw[i] == 0 {
            proof {
                assert(occurs_at(t, 0, pat));
                assert(t.skip(1) =~= raw@.skip(i + 1));
                crate::text::lemma_split_on_nonempty(raw@.skip(i + 1), pat);
            }
            let piece = sub_bytes(raw, start, i);
            let ghost old_done = done;
            if piece.len() > 0 {
                let ghost before = out@;
                out.push(piece);
                proof {
                    assert(byte_texts(out@) =~= byte_texts(before).push(piece@));
                }
            }
            proof {
                done = old_done.push(piece@);
                assert(done.drop_last() =~= old_done);
                let u = split_on(raw@.skip(i + 1), pat);
                assert(split_on(t, pat) =~= seq![Seq::<u8>::empty()] + u);
                assert(raw@.subrange((i + 1) as int, (i + 1) as int) =~= Seq::<u8>::empty());
                assert(split_on(raw@, pat) =~= done + seq![
                    raw@.subrange((i + 1) as int, (i + 1) as int) + u[0],
                ] + u.drop_first());
            }
            i = i + 1;
            start = i;
        } else {
            proof {
                if occurs_at(t, 0, pat) {
                    assert(t.subrange(0, 1)[0] == pat[0]);
                }
                assert(!occurs_at(t, 0, pat));
                assert(t.drop_first() =~= raw@.skip(i + 1));
                crate::text::lemma_split_on_nonempty(raw@.skip(i + 1), pat);
                let u = split_on(raw@.skip(i + 1), pat);
                assert(split_on(t, pat) =~= seq![seq![t[0]] + u[0]] + u.drop_first());
                assert(raw@.subrange(start as int, i + 1) =~= raw@.subrange(start as int, i as int)
                    + seq![t[0]]);
                assert(raw@.subrange(start as int, i + 1) + u[0] =~= raw@.subrange(
                    start as int,
                    i as int,
                ) + (seq![t[0]] + u[0]));
            }
            i = i + 1;
        }
    }
    proof {
        assert(raw@.skip(n as int) =~= Seq::<u8>::empty());
        let u = split_on(raw@.skip(n as int), pat);
        assert(u =~= seq![Seq::<u8>::empty()]);
        assert(raw@.subrange(start as int, n as int) + u[0] =~= raw@.subrange(
            start as int,
            n as int,
        ));
    }
    let last = sub_bytes(raw, start, n);
    proof {
        let all = done.push(last@);
        assert(split_on(raw@, pat) =~= all);
        assert(all.drop_last() =~= done);
    }
    if last.len() > 0 {
        let ghost before = out@;
        out.push(last);
        proof {
            assert(byte_texts(out@) =~= byte_texts(before).push(last@));
        }
    }
    out
}

/// The changed file described by `entry`, whose path is the text of `path_bytes`.
fn make_file(entry: &Vec<u8>, path_bytes: &[u8]) -> (r: ChangedFile)
    requires
        entry@.len() >= 4,
    ensures
        r@ == file_from(entry@, path_bytes@),
{
    let s = entry[0] as char;
    let u = entry[1] as char;
    let path = decode_lossy(path_bytes);
    let mut code = String::new();
    crate::text::push_char(&mut code, s);
    crate::text::push_char(&mut code, u);
    proof {
        assert(code@ =~= seq![s, u]);
    }
    ChangedFile {
        path,
        staged: s != ' ' && s != '?',
        unstaged: u != ' ' || s == '?',
        untracked: s == '?' || u == '?',
        status_code: code,
    }
}

/// The flags of a file as `git status` letters give them, and its letters
/// taken from an entry of the output.
spec fn flags_agree(f: FileModel, es: Seq<Seq<u8>>) -> bool {
    &&& f.status_code.len() == 2
    &&& f.staged == (f.status_code[0] != ' ' && f.status_code[0] != '?')
    &&& f.unstaged == (f.status_code[1] != ' ' || f.status_code[0] == '?')
    &&& f.untracked == (f.status_code[0] == '?' || f.status_code[1] == '?')
    &&& exists|j: int|
        0 <= j < es.len() && (#[trigger] es[j]).len() >= 4 && f.status_code == seq![
            es[j][0] as char,
            es[j][1] as char,
        ]
}

proof fn lemma_parsed_flags(es: Seq<Seq<u8>>)
    ensures
        parse_entries(es) matches Ok(ms) ==> forall|i: int|
            0 <= i < ms.len() ==> flags_agree(#[trigger] ms[i], es),
    decreases es.len(),
{
    if es.len() > 0 && es[0].len() >= 4 {
        let e = es[0];
        if is_rename_code(e[0] as char) || is_rename_code(e[1] as char) {
            if es.len() >= 2 {
                lemma_parsed_flags(es.skip(2));
                if parse_entries(es) is Ok {
                let ms = parse_entries(es)->Ok_0;
                    let r = parse_entries(es.skip(2))->Ok_0;
                    assert forall|i: int| 0 <= i < ms.len() implies flags_agree(#[trigger] ms[i], es) by {
                        if i == 0 {
                            assert(ms[0].status_code == seq![es[0][0] as char, es[0][1] as char]);
                        } else {
                            assert(ms[i] == r[i - 1]);
                            assert(flags_agree(r[i - 1], es.skip(2)));
                            let j = choose|j: int|
                                0 <= j < es.skip(2).len() && (#[trigger] es.skip(2)[j]).len() >= 4
                                    && r[i - 1].status_code == seq![
                                    es.skip(2)[j][0] as char,
                                    es.skip(2)[j][1] as char,
                                ];
                            assert(es.skip(2)[j] == es[j + 2]);
                        }
                    }
                }
            }
        } else {
            lemma_parsed_flags(es.drop_first());
            if parse_entries(es) is Ok {
                let ms = parse_entries(es)->Ok_0;
                let r = parse_entries(es.drop_first())->Ok_0;
                assert forall|i: int| 0 <= i < ms.len() implies flags_agree(#[trigger] ms[i], es) by {
                    if i == 0 {
                        assert(ms[0].status_code == seq![es[0][0] as char, es[0][1] as char]);
                    } else {
                        assert(ms[i] == r[i - 1]);
                        assert(flags_agree(r[i - 1], es.drop_first()));
                        let j = choose|j: int|
                            0 <= j < es.drop_first().len() && (#[trigger] es.drop_first()[j]).len() >= 4
                                && r[i - 1].status_code == seq![
                                es.drop_first()[j][0] as char,
                                es.drop_first()[j][1] as char,
                            ];
                        assert(es.drop_first()[j] == es[j + 1]);
                    }
                }
            }
        }
    }
}

/// What `git status` letters mean for the files read from its output (in
/// any order, such as the sorted one `parse_status_output` returns): each
/// file has the two letters of one entry of the output; it is staged exactly
/// when the index letter is neither a space nor `?` (so an untracked `??`
/// file is not staged), has unstaged changes when the work-tree letter is not
/// a space or the file is untracked, and is untracked when either letter is `?`.
pub proof fn lemma_status_flags_follow_letters(raw: Seq<u8>, files: Seq<FileModel>)
    requires
        parse_entries(status_entries(raw)) matches Ok(ms) && files.to_multiset() == ms.to_multiset(),
    ensures
        forall|i: int|
            0 <= i < files.len() ==> {
                let f = #[trigger] files[i];
                &&& f.status_code.len() == 2
                &&& f.staged == (f.status_code[0] != ' ' && f.status_code[0] != '?')
                &&& f.unstaged == (f.status_code[1] != ' ' || f.status_code[0] == '?')
                &&& f.untracked == (f.status_code[0] == '?' || f.status_code[1] == '?')
                &&& exists|j: int|
                    0 <= j < status_entries(raw).len() && (#[trigger] status_entries(raw)[j]).len()
                        >= 4 && f.status_code == seq![
                        status_entries(raw)[j][0] as char,
                        status_entries(raw)[j][1] as char,
                    ]
            },
{
    broadcast use vstd::seq_lib::group_to_multiset_ensures;

    let es = status_entries(raw);
    let ms = parse_entries(es)->Ok_0;
    lemma_parsed_flags(es);
    assert forall|i: int| 0 <= i < files.len() implies flags_agree(#[trigger] files[i], es) by {
        assert(files.contains(files[i]));
        assert(files.to_multiset().count(files[i]) > 0);
        assert(ms.contains(files[i]));
        let k = choose|k: int| 0 <= k < ms.len() && ms[k] == files[i];
        assert(flags_agree(ms[k], es));
    }
}

proof fn lemma_file_path_le_preorder()
    ensures
        crate::sort::total_preorder(|a: FileModel, b: FileModel| file_path_le(a, b)),
{
    assert forall|x: FileModel, y: FileModel, z: FileModel|
        file_path_le(x, y) && file_path_le(y, z) implies file_path_le(x, z) by {
        lemma_comps_le_order(components(x.path), components(y.path), components(z.path));
    }
    assert forall|x: FileModel, y: FileModel| file_path_le(x, y) || file_path_le(y, x) by {
        lemma_comps_le_order(components(x.path), components(y.path), components(y.path));
    }
    assert forall|x: FileModel| file_path_le(x, x) by {
        lemma_comps_le_order(components(x.path), components(x.path), components(x.path));
    }
}

/// Whether file `a` sorts no later than file `b` (by path).
fn changed_file_le(a: &ChangedFile, b: &ChangedFile) -> (r: bool)
    ensures
        r == file_path_le(a@, b@),
{
    path_le_exec(&a.path, &b.path)
}

/// Reads `git status --porcelain=v1 -z` output: the files it lists, ordered
/// by path, or the reason the output is malformed.
pub fn parse_status_output(raw: &[u8]) -> (r: Result<RepositoryStatus, StatusParseError>)
    ensures
        match (r, parse_entries(status_entries(raw@))) {
            (Ok(st), Ok(ms)) => views(st.files@) == insertion_sorted(
                ms,
                |a: FileModel, b: FileModel| file_path_le(a, b),
            ) && views(st.files@).to_multiset() == ms.to_multiset() && sorted_by(
                views(st.files@),
                |a: FileModel, b: FileModel| file_path_le(a, b),
            ),
            (Err(e), Err(e2)) => e == e2,
            _ => false,
        },
{
    let entries = split_entries(raw);
    let ghost es = byte_texts(entries@);
    let mut files: Vec<ChangedFile> = Vec::new();
    let mut index: usize = 0;
    proof {
        assert(es.skip(0) =~= es);
        assert(views(files@) =~= Seq::<FileModel>::empty());
    }
    while index < entries.len()
        invariant
            index <= entries@.len(),
            es == byte_texts(entries@),
            es == status_entries(raw@),
            parse_entries(es) == match parse_entries(es.skip(index as int)) {
                Ok(rest) => Ok(views(files@) + rest),
                Err(x) => Err(x),
            },
        decreases entries@.len() - index,
    {
        let entry = &entries[index];
        let ghost t = es.skip(index as int);
        proof {
            assert(t[0] == entry@);
        }
        if entry.len() < 4 {
            proof {
                assert(parse_entries(t) == Err::<Seq<FileModel>, StatusParseError>(
                    StatusParseError::UnexpectedEntry,
                ));
            }
            return Err(StatusParseError::UnexpectedEntry);
        }
        let staged_code = entry[0] as char;
        let unstaged_code = entry[1] as char;
        let is_rename = staged_code == 'R' || staged_code == 'C' || unstaged_code == 'R'
            || unstaged_code == 'C';
        let ghost before = views(files@);
        if is_rename {
            if index + 1 >= entries.len() {
                proof {
                    assert(is_rename_code(t[0][0] as char) || is_rename_code(t[0][1] as char));
                    assert(parse_entries(t) == Err::<Seq<FileModel>, StatusParseError>(
                        StatusParseError::MissingRenameTarget,
                    ));
                }
                return Err(StatusParseError::MissingRenameTarget);
            }
            let target = &entries[index + 1];
            let file = make_file(entry, target.as_slice());
            proof {
                assert(t[1] == target@);
                assert(t.skip(2) =~= es.skip(index + 2));
            }
            files.push(file);
            index = index + 2;
        } else {
            let path_bytes = sub_bytes(entry.as_slice(), 3, entry.len());
            let file = make_file(entry, path_bytes.as_slice());
            proof {
                assert(t.drop_first() =~= es.skip(index + 1));
                assert(entry@.skip(3) =~= path_bytes@);
            }
            files.push(file);
            index = index + 1;
        }
        proof {
            assert(views(files@) =~= before.push(files@.last()@));
            match parse_entries(es.skip(index as int)) {
                Ok(rest) => {
                    assert(views(files@) + rest =~= before + (seq![files@.last()@] + rest));
                },
                Err(x) => {},
            }
        }
    }
    proof {
        assert(es.skip(index as int) =~= Seq::<Seq<u8>>::empty());
        assert(views(files@) + Seq::<FileModel>::empty() =~= views(files@));
        lemma_file_path_le_preorder();
    }
    let sorted = sort_by_le(
        files,
        changed_file_le,
        Ghost(|a: FileModel, b: FileModel| file_path_le(a, b)),
    );
    Ok(RepositoryStatus { files: sorted })
}

} // verus!
