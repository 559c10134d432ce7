//! Commit messages, branch names and log entries.
use vstd::prelude::*;
use vstd::std_specs::convert::TryFromSpecImpl;

use crate::text::{
    blank, chars_of, copy_chars, is_blank, join, lemma_trim_shape, occurs_at, join_with, lines, split_lines, split_on,
    split_pattern, string_of, texts, trim, trim_chars,
};

verus! {

/// Why a user-supplied name or message was refused.
#[derive(Clone, Copy, Debug, PartialEq, Eq, Structural)]
pub enum ValidationError {
    EmptyBranchName,
    EmptyCommitMessage,
}

impl ValidationError {
    /// The human-readable description of the error.
    pub fn message(&self) -> (r: &'static str)
        ensures
            *self == ValidationError::EmptyBranchName ==> r@ == "branch name cannot be empty"@,
            *self == ValidationError::EmptyCommitMessage ==> r@
                == "commit message must include a non-empty subject line"@,
    {
        match self {
            ValidationError::EmptyBranchName => "branch name cannot be empty",
            ValidationError::EmptyCommitMessage => "commit message must include a non-empty subject line",
        }
    }
}

/// One entry of a repository's commit log.
#[derive(Clone, Debug, PartialEq, Eq)]
pub struct LogEntry {
    pub hash: String,
    pub subject: String,
    pub author: String,
    pub date: String,
    pub full_message: String,
    /// Commit time in seconds since the Unix epoch.
    pub timestamp: i64,
}

// ───────────────────────── commit message model ─────────────────────────

/// Index of the first line that is not blank, or the number of lines when all are blank.
pub open spec fn first_nonblank(ls: Seq<Seq<char>>) -> int
    decreases ls.len(),
{
    if ls.len() == 0 {
        0
    } else if !is_blank(ls[0]) {
        0
    } else {
        1 + first_nonblank(ls.drop_first())
    }
}

/// Whether some line of the text is not blank.
pub open spec fn has_nonblank_line(s: Seq<char>) -> bool {
    exists|i: int| 0 <= i < lines(s).len() && !is_blank(#[trigger] lines(s)[i])
}

/// The subject: the first non-blank line, trimmed; empty when there is none.
pub open spec fn subject_of(s: Seq<char>) -> Seq<char> {
    let ls = lines(s);
    let k = first_nonblank(ls);
    if k < ls.len() {
        trim(ls[k])
    } else {
        Seq::empty()
    }
}

/// The body: the lines after the subject line, joined by newlines and trimmed;
/// absent when that is empty or when there is no subject line.
pub open spec fn body_of(s: Seq<char>) -> Option<Seq<char>> {
    let ls = lines(s);
    let k = first_nonblank(ls);
    if k >= ls.len() {
        None
    } else {
        let b = trim(join(ls.skip(k + 1), seq!['\n']));
        if b.len() == 0 {
            None
        } else {
            Some(b)
        }
    }
}

/// The trimmed pieces that are not empty, in order.
pub open spec fn nonempty_trimmed(ps: Seq<Seq<char>>) -> Seq<Seq<char>>
    decreases ps.len(),
{
    if ps.len() == 0 {
        Seq::empty()
    } else {
        let r = nonempty_trimmed(ps.drop_last());
        let t = trim(ps.last());
        if t.len() > 0 {
            r.push(t)
        } else {
            r
        }
    }
}

/// The `-m` arguments that `git commit` receives: the subject, then each
/// non-empty paragraph of the body (paragraphs are separated by a blank line).
pub open spec fn message_args(s: Seq<char>) -> Seq<Seq<char>> {
    seq![subject_of(s)] + match body_of(s) {
        Some(b) => nonempty_trimmed(split_on(b, seq!['\n', '\n'])),
        None => Seq::empty(),
    }
}

proof fn lemma_first_nonblank_skip(ls: Seq<Seq<char>>, k: int)
    requires
        0 <= k <= ls.len(),
        forall|j: int| 0 <= j < k ==> is_blank(#[trigger] ls[j]),
    ensures
        first_nonblank(ls) == k + first_nonblank(ls.skip(k)),
    decreases k,
{
    if k == 0 {
        assert(ls.skip(0) =~= ls);
    } else {
        let t = ls.drop_first();
        assert(is_blank(ls[0]));
        assert forall|j: int| 0 <= j < k - 1 implies is_blank(#[trigger] t[j]) by {
            assert(t[j] == ls[j + 1]);
        }
        lemma_first_nonblank_skip(t, k - 1);
        assert(t.skip(k - 1) =~= ls.skip(k));
    }
}

/// Index of the first non-blank line.
fn find_first_nonblank(ls: &Vec<Vec<char>>) -> (k: usize)
    ensures
        k == first_nonblank(texts(ls@)),
        k <= ls@.len(),
        k < ls@.len() ==> !is_blank(ls@[k as int]@),
        forall|j: int| 0 <= j < k ==> is_blank(#[trigger] texts(ls@)[j]),
{
    let mut i: usize = 0;
    while i < ls.len() && blank(&ls[i])
        invariant
            i <= ls@.len(),
            forall|j: int| 0 <= j < i ==> is_blank(#[trigger] texts(ls@)[j]),
        decreases ls@.len() - i,
    {
        i = i + 1;
    }
    proof {
        lemma_first_nonblank_skip(texts(ls@), i as int);
        let t = texts(ls@).skip(i as int);
        if t.len() > 0 {
            assert(t[0] == ls@[i as int]@);
        }
    }
    i
}

/// The raw text of a commit message: it holds at least one non-blank line.
#[derive(Clone, Debug, PartialEq, Eq)]
pub struct CommitMessage {
    raw: String,
}

impl View for CommitMessage {
    type V = Seq<char>;

    closed spec fn view(&self) -> Seq<char> {
        self.raw@
    }
}

/// The message that holds the given text (no check is made).
pub closed spec fn commit_message_of(raw: String) -> CommitMessage {
    CommitMessage { raw }
}

proof fn lemma_first_nonblank_finds(ls: Seq<Seq<char>>, i: int)
    requires
        0 <= i < ls.len(),
        !is_blank(ls[i]),
    ensures
        0 <= first_nonblank(ls) <= i,
        !is_blank(ls[first_nonblank(ls)]),
    decreases ls.len(),
{
    if is_blank(ls[0]) {
        lemma_first_nonblank_finds(ls.drop_first(), i - 1);
        assert(ls[first_nonblank(ls)] == ls.drop_first()[first_nonblank(ls.drop_first())]);
    }
}

/// A text accepted as a commit message (one with a non-blank line) has a
/// non-empty subject, which becomes the first `-m` argument.
pub proof fn lemma_accepted_message_has_subject(s: Seq<char>)
    requires
        has_nonblank_line(s),
    ensures
        subject_of(s).len() > 0,
        message_args(s)[0] == subject_of(s),
{
    let i = choose|i: int| 0 <= i < lines(s).len() && !is_blank(#[trigger] lines(s)[i]);
    lemma_first_nonblank_finds(lines(s), i);
}

/// Splitting a text on a pattern that does not occur in it leaves the text whole.
proof fn lemma_split_on_absent(t: Seq<char>, pat: Seq<char>)
    requires
        pat.len() > 0,
        forall|i: int| !occurs_at(t, i, pat),
    ensures
        split_on(t, pat) == seq![t],
    decreases t.len(),
{
    if t.len() > 0 {
        assert forall|i: int| !occurs_at(t.drop_first(), i, pat) by {
            if occurs_at(t.drop_first(), i, pat) {
                assert(t.subrange(i + 1, i + 1 + pat.len()) =~= t.drop_first().subrange(
                    i,
                    i + pat.len(),
                ));
                assert(occurs_at(t, i + 1, pat));
            }
        }
        assert(!occurs_at(t, 0, pat));
        lemma_split_on_absent(t.drop_first(), pat);
        assert(seq![t[0]] + t.drop_first() =~= t);
    } else {
        assert(t =~= Seq::<char>::empty());
    }
}

/// A body paragraph stays one `git commit -m` argument, line breaks and all:
/// when the body holds no blank line (no `\n\n`), the arguments are exactly
/// the subject and the whole body.
pub proof fn lemma_paragraph_is_one_argument(s: Seq<char>)
    requires
        body_of(s) matches Some(b) && forall|i: int| !occurs_at(b, i, seq!['\n', '\n']),
    ensures
        message_args(s) == seq![subject_of(s), body_of(s)->0],
{
    let b = body_of(s)->0;
    lemma_split_on_absent(b, seq!['\n', '\n']);
    lemma_trim_shape(join(lines(s).skip(first_nonblank(lines(s)) + 1), seq!['\n']));
    reveal_with_fuel(nonempty_trimmed, 2);
    assert(nonempty_trimmed(seq![b]) =~= seq![b]) by {
        assert(seq![b].drop_last() =~= Seq::<Seq<char>>::empty());
    }
    assert(message_args(s) =~= seq![subject_of(s), b]);
}

/// The message built from a text has that text as its view.
pub proof fn lemma_commit_message_of_view(raw: String)
    ensures
        commit_message_of(raw)@ == raw@,
{
}

impl CommitMessage {
    /// Accepts a text that has a non-blank line; refuses it with
    /// `EmptyCommitMessage` otherwise.
    pub fn parse(value: String) -> (r: Result<CommitMessage, ValidationError>)
        ensures
            r == (if has_nonblank_line(value@) {
                Ok::<CommitMessage, ValidationError>(commit_message_of(value))
            } else {
                Err::<CommitMessage, ValidationError>(ValidationError::EmptyCommitMessage)
            }),
    {
        let chars = chars_of(value.as_str());
        let ls = split_lines(&chars);
        let k = find_first_nonblank(&ls);
        if k < ls.len() {
            proof {
                assert(texts(ls@)[k as int] == ls@[k as int]@);
            }
            Ok(CommitMessage { raw: value })
        } else {
            proof {
                assert forall|i: int| 0 <= i < lines(value@).len() implies is_blank(
                    #[trigger] lines(value@)[i],
                ) by {
                    assert(texts(ls@)[i] == lines(value@)[i]);
                }
            }
            Err(ValidationError::EmptyCommitMessage)
        }
    }

    /// The subject line (`subject_of`).
    pub fn subject(&self) -> (r: String)
        ensures
            r@ == subject_of(self@),
    {
        let chars = chars_of(self.raw.as_str());
        let ls = split_lines(&chars);
        let k = find_first_nonblank(&ls);
        if k < ls.len() {
            let t = trim_chars(&ls[k]);
            string_of(&t)
        } else {
            String::new()
        }
    }

    /// The body (`body_of`).
    pub fn body(&self) -> (r: Option<String>)
        ensures
            match r {
                Some(b) => body_of(self@) == Some(b@),
                None => body_of(self@).is_none(),
            },
    {
        let chars = chars_of(self.raw.as_str());
        let ls = split_lines(&chars);
        let k = find_first_nonblank(&ls);
        if k >= ls.len() {
            return None;
        }
        let mut rest: Vec<Vec<char>> = Vec::new();
        let mut i = k + 1;
        while i < ls.len()
            invariant
                k < ls@.len(),
                k + 1 <= i <= ls@.len(),
                texts(rest@) =~= texts(ls@).subrange(k + 1, i as int),
            decreases ls@.len() - i,
        {
            let line = copy_chars(&ls[i]);
            let ghost before = rest@;
            rest.push(line);
            proof {
                assert(rest@ == before.push(line));
                assert(texts(rest@) =~= texts(before).push(ls@[i as int]@));
            }
            i = i + 1;
        }
        proof {
            assert(texts(ls@).subrange(k + 1, ls@.len() as int) =~= texts(ls@).skip(k + 1));
        }
        let nl = vec!['\n'];
        proof {
            assert(nl@ =~= seq!['\n']);
        }
        let joined = join_with(&rest, &nl);
        let b = trim_chars(&joined);
        if b.len() == 0 {
            None
        } else {
            Some(string_of(&b))
        }
    }

    /// The arguments passed to `git commit -m` (`message_args`).
    pub fn git_message_args(&self) -> (r: Vec<String>)
        ensures
            r@.map_values(|s: String| s@) == message_args(self@),
    {
        let mut args: Vec<String> = Vec::new();
        args.push(self.subject());
        proof {
            assert(args@.map_values(|s: String| s@) =~= seq![subject_of(self@)]);
        }
        match self.body() {
            Some(body) => {
                let bchars = chars_of(body.as_str());
                let sep = vec!['\n', '\n'];
                proof {
                    assert(sep@ =~= seq!['\n', '\n']);
                }
                let paragraphs = split_pattern(&bchars, &sep);
                let mut i: usize = 0;
                while i < paragraphs.len()
                    invariant
                        i <= paragraphs@.len(),
                        texts(paragraphs@) == split_on(body@, seq!['\n', '\n']),
                        args@.map_values(|s: String| s@) =~= seq![subject_of(self@)]
                            + nonempty_trimmed(texts(paragraphs@).take(i as int)),
                    decreases paragraphs@.len() - i,
                {
                    proof {
                        let t = texts(paragraphs@).take(i + 1);
                        assert(t.drop_last() =~= texts(paragraphs@).take(i as int));
                        assert(t.last() == paragraphs@[i as int]@);
                    }
                    let p = trim_chars(&paragraphs[i]);
                    if p.len() > 0 {
                        let ghost before = args@.map_values(|s: String| s@);
                        args.push(string_of(&p));
                        proof {
                            assert(args@.map_values(|s: String| s@) =~= before.push(p@));
                        }
                    }
                    i = i + 1;
                }
                proof {
                    assert(texts(paragraphs@).take(i as int) =~= texts(paragraphs@));
                }
            },
            None => {
                proof {
                    assert(seq![subject_of(self@)] + Seq::<Seq<char>>::empty() =~= seq![
                        subject_of(self@),
                    ]);
                }
            },
        }
        args
    }
}

impl TryFrom<String> for CommitMessage {
    type Error = ValidationError;

    fn try_from(value: String) -> (r: Result<CommitMessage, ValidationError>) {
        CommitMessage::parse(value)
    }
}

impl TryFromSpecImpl<String> for CommitMessage {
    open spec fn obeys_try_from_spec() -> bool {
        true
    }

    open spec fn try_from_spec(value: String) -> Result<CommitMessage, ValidationError> {
        if has_nonblank_line(value@) {
            Ok(commit_message_of(value))
        } else {
            Err(ValidationError::EmptyCommitMessage)
        }
    }
}

} // verus!
