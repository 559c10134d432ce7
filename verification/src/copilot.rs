//! What is sent to and read back from the Copilot chat service: the staged
//! diff context, the prompts, the request messages, and the reading of the
//! generated texts.
use vstd::prelude::*;

use crate::domain::{GeneratedCommitMessage, GeneratedPrDescription};
use crate::search::{first_where, lemma_first_where};
use crate::text::opt_view;
use crate::text::{
    append_chars, blank, lemma_utf8_len_concat, chars_eq, chars_of, find, find_text, is_blank, lemma_split_on_nonempty,
    lemma_utf8_len_take_succ, len_utf8, lines, matches_at, occurs_at, split_lines, split_on,
    split_pattern, string_of, sub_chars, texts, trim, trim_chars, utf8_len,
};

verus! {

// ───────────────────────── byte lengths ─────────────────────────

/// The byte length of a text, or `cap + 1` when it is longer than `cap`.
pub fn utf8_len_capped(s: &Vec<char>, cap: usize) -> (r: usize)
    requires
        cap < usize::MAX - 4,
    ensures
        utf8_len(s@) <= cap ==> r == utf8_len(s@),
        utf8_len(s@) > cap ==> r == cap + 1,
{
    let mut total: usize = 0;
    let mut i: usize = 0;
    while i < s.len()
        invariant
            i <= s@.len(),
            cap < usize::MAX - 4,
            total == utf8_len(s@.take(i as int)),
            total <= cap,
        decreases s@.len() - i,
    {
        proof {
            lemma_utf8_len_take_succ(s@, i as int);
        }
        total = total + len_utf8(s[i]);
        i = i + 1;
        if total > cap {
            proof {
                lemma_utf8_len_prefix_le(s@, i as int);
            }
            return cap + 1;
        }
    }
    proof {
        assert(s@.take(i as int) =~= s@);
    }
    total
}

/// The encoded length of a prefix is at most that of the whole text.
pub proof fn lemma_utf8_len_prefix_le(s: Seq<char>, k: int)
    requires
        0 <= k <= s.len(),
    ensures
        utf8_len(s.take(k)) <= utf8_len(s),
    decreases s.len() - k,
{
    if k < s.len() {
        lemma_utf8_len_take_succ(s, k);
        lemma_utf8_len_prefix_le(s, k + 1);
    } else {
        assert(s.take(k) =~= s);
    }
}

/// Strictly longer prefixes have strictly longer encodings.
proof fn lemma_utf8_len_prefix_strict(s: Seq<char>, j: int, k: int)
    requires
        0 <= j < k <= s.len(),
    ensures
        utf8_len(s.take(j)) < utf8_len(s.take(k)),
    decreases k - j,
{
    lemma_utf8_len_take_succ(s, j);
    if j + 1 < k {
        lemma_utf8_len_prefix_strict(s, j + 1, k);
    }
}

/// `k` characters of `s` take exactly `b` bytes.
pub open spec fn boundary_at(s: Seq<char>, b: nat, k: int) -> bool {
    0 <= k <= s.len() && utf8_len(s.take(k)) == b
}

/// Byte offset `b` falls between two characters of `s` (or at an end).
pub open spec fn is_boundary(s: Seq<char>, b: nat) -> bool {
    exists|k: int| boundary_at(s, b, k)
}

/// The number of characters in the first `b` bytes of `s`.
pub open spec fn chars_in_bytes(s: Seq<char>, b: nat) -> int {
    choose|k: int| boundary_at(s, b, k)
}

proof fn lemma_boundary_unique(s: Seq<char>, b: nat, k: int)
    requires
        boundary_at(s, b, k),
    ensures
        chars_in_bytes(s, b) == k,
{
    let c = chars_in_bytes(s, b);
    assert(boundary_at(s, b, c));
    if c < k {
        lemma_utf8_len_prefix_strict(s, c, k);
    } else if k < c {
        lemma_utf8_len_prefix_strict(s, k, c);
    }
}

/// The character index at byte offset `b`, when `b` is a boundary.
fn char_index_at_byte(s: &Vec<char>, b: usize) -> (r: Option<usize>)
    requires
        b < usize::MAX - 4,
    ensures
        match r {
            Some(k) => boundary_at(s@, b as nat, k as int) && chars_in_bytes(s@, b as nat) == k,
            None => !is_boundary(s@, b as nat),
        },
{
    let mut total: usize = 0;
    let mut i: usize = 0;
    while i < s.len() && total < b
        invariant
            i <= s@.len(),
            b < usize::MAX - 4,
            total == utf8_len(s@.take(i as int)),
            total <= b + 3,
            forall|j: int| 0 <= j < i ==> utf8_len(s@.take(j)) < b,
        decreases s@.len() - i,
    {
        proof {
            lemma_utf8_len_take_succ(s@, i as int);
        }
        total = total + len_utf8(s[i]);
        i = i + 1;
    }
    if total == b {
        proof {
            lemma_boundary_unique(s@, b as nat, i as int);
        }
        Some(i)
    } else {
        proof {
            assert forall|k: int| !boundary_at(s@, b as nat, k) by {
                if boundary_at(s@, b as nat, k) {
                    if k < i {
                    } else if k > i {
                        lemma_utf8_len_prefix_strict(s@, i as int, k);
                        if i < s@.len() {
                            assert(total > b);
                        }
                    }
                }
            }
        }
        None
    }
}

// ───────────────────────── truncation ─────────────────────────

/// Index of the last occurrence of `c`, or -1.
pub open spec fn last_index_of(s: Seq<char>, c: char) -> int
    decreases s.len(),
{
    if s.len() == 0 {
        -1
    } else if s.last() == c {
        s.len() - 1
    } else {
        last_index_of(s.drop_last(), c)
    }
}

proof fn lemma_last_index_of_bounds(s: Seq<char>, c: char)
    ensures
        -1 <= last_index_of(s, c) < s.len(),
    decreases s.len(),
{
    if s.len() > 0 && s.last() != c {
        lemma_last_index_of_bounds(s.drop_last(), c);
    }
}

/// Index of the last occurrence of `c`.
fn find_last(s: &Vec<char>, c: char) -> (r: Option<usize>)
    ensures
        match r {
            Some(i) => last_index_of(s@, c) == i,
            None => last_index_of(s@, c) == -1,
        },
{
    let mut i = s.len();
    proof {
        assert(s@.take(s@.len() as int) =~= s@);
    }
    while i > 0 && s[i - 1] != c
        invariant
            i <= s@.len(),
            last_index_of(s@, c) == last_index_of(s@.take(i as int), c),
        decreases i,
    {
        proof {
            assert(s@.take(i as int).drop_last() =~= s@.take(i - 1));
        }
        i = i - 1;
    }
    proof {
        assert(s@.take(s@.len() as int) =~= s@);
    }
    if i == 0 {
        proof {
            assert(s@.take(0) =~= Seq::<char>::empty());
        }
        None
    } else {
        Some(i - 1)
    }
}

/// The first `max` bytes of a text, cut back to the last line break inside
/// them when there is one.
pub open spec fn cut_at_line(t: Seq<char>, max: nat) -> Seq<char> {
    let cut = t.take(chars_in_bytes(t, max));
    let j = last_index_of(cut, '\n');
    if j >= 0 {
        t.take(j)
    } else {
        cut
    }
}

/// The marker appended to a truncated text.
pub open spec fn truncation_marker() -> Seq<char> {
    "\n[...truncated]"@
}

/// A text kept whole when it fits in `max` bytes, else cut at a line break
/// within `max` bytes and marked as truncated.
pub open spec fn truncated_with_marker(t: Seq<char>, max: nat) -> Seq<char> {
    if utf8_len(t) <= max {
        t
    } else {
        cut_at_line(t, max) + truncation_marker()
    }
}

/// Cuts a text that is longer than `max` bytes (`cut_at_line`).
fn cut_text(t: &Vec<char>, max: usize) -> (r: Vec<char>)
    requires
        max < usize::MAX - 4,
        is_boundary(t@, max as nat),
    ensures
        r@ == cut_at_line(t@, max as nat),
{
    let k = match char_index_at_byte(t, max) {
        Some(k) => k,
        None => {
            return Vec::new();
        },
    };
    let cut = sub_chars(t, 0, k);
    proof {
        assert(cut@ =~= t@.take(k as int));
    }
    match find_last(&cut, '\n') {
        Some(j) => {
            proof {
                lemma_last_index_of_bounds(cut@, '\n');
            }
            let r = sub_chars(t, 0, j);
            proof {
                assert(r@ =~= t@.take(j as int));
            }
            r
        },
        None => cut,
    }
}

/// Limits a text to `max` bytes (`truncated_with_marker`). The cut must fall
/// between two characters.
pub fn truncate_with_marker(text: &str, max_chars: usize) -> (r: String)
    requires
        max_chars < usize::MAX - 4,
        utf8_len(text@) > max_chars ==> is_boundary(text@, max_chars as nat),
    ensures
        r@ == truncated_with_marker(text@, max_chars as nat),
{
    let t = chars_of(text);
    if utf8_len_capped(&t, max_chars) <= max_chars {
        return string_of(&t);
    }
    let mut cut = cut_text(&t, max_chars);
    let marker = chars_of("\n[...truncated]");
    append_chars(&mut cut, &marker);
    string_of(&cut)
}

/// Most bytes of diff included when describing a pull request.
pub open spec fn max_pr_diff_chars() -> nat {
    12000
}

/// A diff kept whole when it fits in 12000 bytes, else cut at a line break.
pub open spec fn truncated_pr_diff(d: Seq<char>) -> Seq<char> {
    if utf8_len(d) <= max_pr_diff_chars() {
        d
    } else {
        cut_at_line(d, max_pr_diff_chars())
    }
}

/// Limits a diff to 12000 bytes (`truncated_pr_diff`). The cut must fall
/// between two characters.
pub fn truncate_pr_diff(diff: &str) -> (r: String)
    requires
        utf8_len(diff@) > max_pr_diff_chars() ==> is_boundary(diff@, max_pr_diff_chars()),
    ensures
        r@ == truncated_pr_diff(diff@),
{
    let t = chars_of(diff);
    if utf8_len_capped(&t, 12000) <= 12000 {
        return string_of(&t);
    }
    let cut = cut_text(&t, 12000);
    string_of(&cut)
}

// ───────────────────────── noise files ─────────────────────────

/// Lock files and similar generated files left out of the diff context.
pub open spec fn noise_files() -> Seq<Seq<char>> {
    seq![
        "Cargo.lock"@,
        "package-lock.json"@,
        "yarn.lock"@,
        "pnpm-lock.yaml"@,
        "Gemfile.lock"@,
        "poetry.lock"@,
        "composer.lock"@,
        "go.sum"@,
        "flake.lock"@,
    ]
}

/// The file name: what follows the last `/`.
pub open spec fn file_name_of(path: Seq<char>) -> Seq<char> {
    split_on(path, seq!['/']).last()
}

/// Whether a path names a noise file.
pub open spec fn is_noise(path: Seq<char>) -> bool {
    noise_files().contains(file_name_of(path))
}

/// Whether a path names a noise file (`is_noise`).
pub fn is_noise_file(path: &str) -> (r: bool)
    ensures
        r == is_noise(path@),
{
    let p = chars_of(path);
    let sep = vec!['/'];
    proof {
        assert(sep@ =~= seq!['/']);
        lemma_split_on_nonempty(p@, seq!['/']);
    }
    let pieces = split_pattern(&p, &sep);
    let name = &pieces[pieces.len() - 1];
    proof {
        assert(texts(pieces@).last() == name@);
        assert(file_name_of(path@) == name@);
    }
    let names: Vec<&str> = vec![
        "Cargo.lock",
        "package-lock.json",
        "yarn.lock",
        "pnpm-lock.yaml",
        "Gemfile.lock",
        "poetry.lock",
        "composer.lock",
        "go.sum",
        "flake.lock",
    ];
    proof {
        assert(names@.map_values(|s: &str| s@) =~= noise_files());
    }
    let mut i: usize = 0;
    while i < names.len()
        invariant
            i <= names@.len(),
            names@.map_values(|s: &str| s@) == noise_files(),
            file_name_of(path@) == name@,
            forall|j: int| 0 <= j < i ==> noise_files()[j] != name@,
        decreases names@.len() - i,
    {
        let candidate = chars_of(names[i]);
        proof {
            assert(noise_files()[i as int] == names@[i as int]@);
        }
        if chars_eq(&candidate, name) {
            proof {
                assert(noise_files()[i as int] == name@);
                assert(noise_files().contains(file_name_of(path@)));
            }
            return true;
        }
        i = i + 1;
    }
    false
}

// ───────────────────────── diff context ─────────────────────────

/// Most bytes of the whole diff context.
pub open spec fn max_total_chars() -> nat {
    64000
}

/// Most bytes of one file's diff.
pub open spec fn max_per_file_chars() -> nat {
    4000
}

/// The header of the diff context.
pub open spec fn overview(stat: Seq<char>) -> Seq<char> {
    "## Overview (git diff --stat)\n"@ + stat + "\n"@
}

/// The section of one file.
pub open spec fn file_section(name: Seq<char>, diff: Seq<char>) -> Seq<char> {
    "## File: "@ + name + "\n"@ + truncated_with_marker(diff, max_per_file_chars()) + "\n\n"@
}

/// A file whose diff goes in the context: not a noise file, diff read, not blank.
pub open spec fn contributes(name: Seq<char>, diff: Option<Seq<char>>) -> bool {
    !is_noise(name) && diff is Some && !is_blank(diff->0)
}

/// The file sections that fit, in order, within `remaining` bytes; the first
/// section that does not fit ends the context.
pub open spec fn file_sections(files: Seq<(Seq<char>, Option<Seq<char>>)>, remaining: nat) -> Seq<char>
    decreases files.len(),
{
    if files.len() == 0 {
        Seq::empty()
    } else {
        let (name, diff) = files[0];
        if !contributes(name, diff) {
            file_sections(files.drop_first(), remaining)
        } else {
            let sec = file_section(name, diff->0);
            if utf8_len(sec) > remaining {
                Seq::empty()
            } else {
                sec + file_sections(files.drop_first(), (remaining - utf8_len(sec)) as nat)
            }
        }
    }
}

/// What is left of the 64000-byte budget after the overview.
pub open spec fn context_budget(stat: Seq<char>) -> nat {
    if utf8_len(overview(stat)) >= max_total_chars() {
        0
    } else {
        (max_total_chars() - utf8_len(overview(stat))) as nat
    }
}

/// The context given to the AI: the overview, then the sections of the
/// staged files that fit in what is left of the 64000-byte budget.
pub open spec fn diff_context(stat: Seq<char>, files: Seq<(Seq<char>, Option<Seq<char>>)>) -> Seq<char> {
    overview(stat) + file_sections(files, context_budget(stat))
}

/// A file's diff, when it goes in the context and is longer than the
/// per-file limit, can be cut at that limit between two characters.
pub open spec fn cut_at_boundary(name: Seq<char>, diff: Option<Seq<char>>) -> bool {
    contributes(name, diff) && utf8_len(diff->0) > max_per_file_chars() ==> is_boundary(
        diff->0,
        max_per_file_chars(),
    )
}

/// Every diff that building the context cuts (those that go in, up to and
/// including the first section that does not fit) can be cut between two
/// characters.
pub open spec fn sections_cuttable(files: Seq<(Seq<char>, Option<Seq<char>>)>, remaining: nat) -> bool
    decreases files.len(),
{
    if files.len() == 0 {
        true
    } else {
        let (name, diff) = files[0];
        if !contributes(name, diff) {
            sections_cuttable(files.drop_first(), remaining)
        } else {
            &&& cut_at_boundary(name, diff)
            &&& utf8_len(file_section(name, diff->0)) <= remaining ==> sections_cuttable(
                files.drop_first(),
                (remaining - utf8_len(file_section(name, diff->0))) as nat,
            )
        }
    }
}

/// A staged file: its path and its diff, absent when it could not be read.
pub struct StagedDiff {
    pub path: String,
    pub diff: Option<String>,
}

/// The plain texts of staged files.
pub open spec fn staged_views(v: Seq<StagedDiff>) -> Seq<(Seq<char>, Option<Seq<char>>)> {
    v.map_values(
        |d: StagedDiff|
            (
                d.path@,
                match d.diff {
                    Some(x) => Some(x@),
                    None => None,
                },
            ),
    )
}

/// A diff context being built, one staged file at a time: the text so far,
/// the bytes left for sections, and whether a section has already not fit
/// (which ends the context).
pub struct DiffContextBuilder {
    text: Vec<char>,
    remaining: usize,
    full: bool,
}

/// The sections that the files still to come add to a context in progress.
pub open spec fn still_to_add(b: DiffContextBuilder, rest: Seq<(Seq<char>, Option<Seq<char>>)>) -> Seq<char> {
    if b.is_full() {
        Seq::empty()
    } else {
        file_sections(rest, b.bytes_left())
    }
}

impl DiffContextBuilder {
    /// The context built so far.
    pub closed spec fn text(self) -> Seq<char> {
        self.text@
    }

    /// The bytes left for file sections.
    pub closed spec fn bytes_left(self) -> nat {
        self.remaining as nat
    }

    /// Whether a section did not fit, so that no more are added.
    pub closed spec fn is_full(self) -> bool {
        self.full
    }

    #[verifier::type_invariant]
    spec fn within_budget(self) -> bool {
        self.remaining <= 64000
    }

    /// A context holding the overview of `git diff --stat` output, with the
    /// rest of the 64000-byte budget left for file sections.
    pub fn new(stat: &str) -> (r: DiffContextBuilder)
        ensures
            r.text() == overview(stat@),
            r.bytes_left() == context_budget(stat@),
            !r.is_full(),
    {
        let mut text = chars_of("## Overview (git diff --stat)\n");
        append_chars(&mut text, &chars_of(stat));
        append_chars(&mut text, &chars_of("\n"));
        proof {
            assert(text@ =~= overview(stat@));
        }
        let head_len = utf8_len_capped(&text, 64000);
        let remaining: usize = if head_len >= 64000 {
            0
        } else {
            64000 - head_len
        };
        DiffContextBuilder { text, remaining, full: false }
    }

    /// Whether the diff of the staged file `name` is to be read next: only
    /// while sections still fit, and never for a noise file.
    pub fn wants(&self, name: &str) -> (r: bool)
        ensures
            r == (!self.is_full() && !is_noise(name@)),
    {
        !self.full && !is_noise_file(name)
    }

    /// Adds the staged file `name` with its diff (none when it could not be
    /// read). A noise file, an unread or blank diff, or any file once a
    /// section has not fit, changes nothing. Otherwise the file's section is
    /// appended when it fits in the bytes left; when it does not, the context
    /// is complete.
    pub fn add(&mut self, name: &str, diff: &Option<String>)
        requires
            !old(self).is_full() ==> cut_at_boundary(name@, opt_view(*diff)),
        ensures
            old(self).is_full() || !contributes(name@, opt_view(*diff)) ==> final(self).text()
                == old(self).text() && final(self).bytes_left() == old(self).bytes_left()
                && final(self).is_full() == old(self).is_full(),
            !old(self).is_full() && contributes(name@, opt_view(*diff)) ==> ({
                let sec = file_section(name@, opt_view(*diff)->0);
                if utf8_len(sec) > old(self).bytes_left() {
                    &&& final(self).is_full()
                    &&& final(self).text() == old(self).text()
                    &&& final(self).bytes_left() == old(self).bytes_left()
                } else {
                    &&& !final(self).is_full()
                    &&& final(self).text() == old(self).text() + sec
                    &&& final(self).bytes_left() == old(self).bytes_left() - utf8_len(sec)
                }
            }),
    {
        proof {
            use_type_invariant(&*self);
        }
        if self.full || is_noise_file(name) {
            return;
        }
        let d = match diff {
            Some(d) => d,
            None => {
                return;
            },
        };
        let dchars = chars_of(d.as_str());
        if blank(&dchars) {
            return;
        }
        let truncated = truncate_with_marker(d.as_str(), 4000);
        let mut section = chars_of("## File: ");
        append_chars(&mut section, &chars_of(name));
        append_chars(&mut section, &chars_of("\n"));
        append_chars(&mut section, &chars_of(truncated.as_str()));
        append_chars(&mut section, &chars_of("\n\n"));
        proof {
            assert(section@ =~= file_section(name@, d@));
        }
        let section_len = utf8_len_capped(&section, self.remaining);
        if section_len > self.remaining {
            self.full = true;
        } else {
            let mut text: Vec<char> = Vec::new();
            std::mem::swap(&mut text, &mut self.text);
            append_chars(&mut text, &section);
            self.text = text;
            self.remaining = self.remaining - section_len;
        }
    }

    /// The context built.
    pub fn finish(self) -> (r: String)
        ensures
            r@ == self.text(),
    {
        string_of(&self.text)
    }
}

/// Adding a file to a context in progress keeps what the whole context will
/// be: the text so far plus what the files still to come add.
proof fn lemma_add_keeps_context(
    pre: DiffContextBuilder,
    post: DiffContextBuilder,
    rest: Seq<(Seq<char>, Option<Seq<char>>)>,
)
    requires
        rest.len() > 0,
        pre.is_full() || !contributes(rest[0].0, rest[0].1) ==> post.text() == pre.text()
            && post.bytes_left() == pre.bytes_left() && post.is_full() == pre.is_full(),
        !pre.is_full() && contributes(rest[0].0, rest[0].1) ==> ({
            let sec = file_section(rest[0].0, rest[0].1->0);
            if utf8_len(sec) > pre.bytes_left() {
                post.is_full() && post.text() == pre.text() && post.bytes_left() == pre.bytes_left()
            } else {
                !post.is_full() && post.text() == pre.text() + sec && post.bytes_left()
                    == pre.bytes_left() - utf8_len(sec)
            }
        }),
    ensures
        post.text() + still_to_add(post, rest.drop_first()) == pre.text() + still_to_add(pre, rest),
        !pre.is_full() && sections_cuttable(rest, pre.bytes_left()) && !post.is_full()
            ==> sections_cuttable(rest.drop_first(), post.bytes_left()),
{
    if !pre.is_full() && contributes(rest[0].0, rest[0].1) {
        let sec = file_section(rest[0].0, rest[0].1->0);
        if utf8_len(sec) <= pre.bytes_left() {
            assert(pre.text() + still_to_add(pre, rest) =~= post.text() + still_to_add(
                post,
                rest.drop_first(),
            ));
        } else {
            assert(post.text() + Seq::<char>::empty() =~= pre.text() + Seq::<char>::empty());
        }
    }
}

/// Builds the diff context for commit message generation (`diff_context`)
/// from `git diff --stat` output and the staged files with their diffs.
pub fn prepare_diff_context(stat: &str, files: &Vec<StagedDiff>) -> (r: String)
    requires
        sections_cuttable(staged_views(files@), context_budget(stat@)),
    ensures
        r@ == diff_context(stat@, staged_views(files@)),
{
    let ghost fs = staged_views(files@);
    let mut b = DiffContextBuilder::new(stat);
    let mut i: usize = 0;
    proof {
        assert(fs.skip(0) =~= fs);
    }
    while i < files.len()
        invariant
            i <= files@.len(),
            fs == staged_views(files@),
            b.text() + still_to_add(b, fs.skip(i as int)) == diff_context(stat@, fs),
            !b.is_full() ==> sections_cuttable(fs.skip(i as int), b.bytes_left()),
        decreases files@.len() - i,
    {
        let ghost pre = b;
        let ghost rest = fs.skip(i as int);
        proof {
            assert(rest[0] == fs[i as int]);
            assert(rest.drop_first() =~= fs.skip(i + 1));
            assert(fs[i as int] == (files@[i as int].path@, opt_view(files@[i as int].diff)));
        }
        let file = &files[i];
        if b.wants(file.path.as_str()) {
            b.add(file.path.as_str(), &file.diff);
        }
        proof {
            lemma_add_keeps_context(pre, b, rest);
        }
        i = i + 1;
    }
    proof {
        assert(fs.skip(i as int) =~= Seq::<(Seq<char>, Option<Seq<char>>)>::empty());
        assert(b.text() + Seq::<char>::empty() =~= b.text());
    }
    b.finish()
}

// ───────────────────────── size bounds ─────────────────────────

/// A text cut at a line break within `max` bytes holds at most `max` bytes.
proof fn lemma_cut_within(t: Seq<char>, max: nat)
    requires
        is_boundary(t, max),
    ensures
        utf8_len(cut_at_line(t, max)) <= max,
{
    let k = chars_in_bytes(t, max);
    assert(boundary_at(t, max, k));
    let cut = t.take(k);
    let j = last_index_of(cut, '\n');
    lemma_last_index_of_bounds(cut, '\n');
    if j >= 0 {
        lemma_utf8_len_prefix_le(cut, j);
        assert(cut.take(j) =~= t.take(j));
    }
}

/// A truncated text holds at most `max` bytes plus the marker.
pub proof fn lemma_truncation_bound(t: Seq<char>, max: nat)
    requires
        utf8_len(t) > max ==> is_boundary(t, max),
    ensures
        utf8_len(truncated_with_marker(t, max)) <= max + utf8_len(truncation_marker()),
{
    if utf8_len(t) > max {
        lemma_cut_within(t, max);
        lemma_utf8_len_concat(cut_at_line(t, max), truncation_marker());
    }
}

/// The file sections never take more than the bytes left for them.
proof fn lemma_sections_within(files: Seq<(Seq<char>, Option<Seq<char>>)>, remaining: nat)
    ensures
        utf8_len(file_sections(files, remaining)) <= remaining,
    decreases files.len(),
{
    if files.len() > 0 {
        let (name, diff) = files[0];
        if !contributes(name, diff) {
            lemma_sections_within(files.drop_first(), remaining);
        } else {
            let sec = file_section(name, diff->0);
            if utf8_len(sec) <= remaining {
                let rest = (remaining - utf8_len(sec)) as nat;
                lemma_sections_within(files.drop_first(), rest);
                lemma_utf8_len_concat(sec, file_sections(files.drop_first(), rest));
            }
        }
    }
}

proof fn lemma_last_index_of_found(s: Seq<char>, c: char)
    ensures
        last_index_of(s, c) >= 0 ==> s[last_index_of(s, c)] == c,
        last_index_of(s, c) < 0 ==> forall|i: int| 0 <= i < s.len() ==> s[i] != c,
    decreases s.len(),
{
    if s.len() > 0 && s.last() != c {
        lemma_last_index_of_found(s.drop_last(), c);
        lemma_last_index_of_bounds(s.drop_last(), c);
        let j = last_index_of(s.drop_last(), c);
        if j >= 0 {
            assert(s.drop_last()[j] == s[j]);
        }
        if j < 0 {
            assert forall|i: int| 0 <= i < s.len() implies s[i] != c by {
                if i < s.len() - 1 {
                    assert(s.drop_last()[i] == s[i]);
                }
            }
        }
    }
}

/// What a file's section holds of its diff: the whole diff when it fits in
/// 4000 bytes; otherwise a prefix of it of at most 4000 bytes, ending just
/// before a line break (or, when those 4000 bytes hold no line break, all of
/// them), followed by `\n[...truncated]`. Either way a section holds at most
/// 4000 bytes of diff plus that marker.
pub proof fn lemma_file_section_holds_cut_diff(name: Seq<char>, diff: Seq<char>)
    requires
        utf8_len(diff) > 4000 ==> is_boundary(diff, 4000),
    ensures
        utf8_len(diff) <= 4000 ==> file_section(name, diff) == "## File: "@ + name + "\n"@ + diff
            + "\n\n"@,
        utf8_len(diff) > 4000 ==> exists|k: int|
            #![trigger diff.take(k)]
            {
                &&& 0 <= k < diff.len()
                &&& utf8_len(diff.take(k)) <= 4000
                &&& (diff[k] == '\n' || (utf8_len(diff.take(k)) == 4000 && forall|i: int|
                    0 <= i < k ==> diff[i] != '\n'))
                &&& file_section(name, diff) == "## File: "@ + name + "\n"@ + diff.take(k)
                    + "\n[...truncated]"@ + "\n\n"@
            },
        utf8_len(file_section(name, diff)) <= utf8_len("## File: "@ + name + "\n"@) + 4000
            + utf8_len("\n[...truncated]"@) + utf8_len("\n\n"@),
{
    let head = "## File: "@ + name + "\n"@;
    if utf8_len(diff) <= 4000 {
        assert(file_section(name, diff) == head + diff + "\n\n"@);
        lemma_utf8_len_concat(head, diff);
        lemma_utf8_len_concat(head + diff, "\n\n"@);
    } else {
        let c = chars_in_bytes(diff, 4000);
        assert(boundary_at(diff, 4000, c));
        let cut = diff.take(c);
        let j = last_index_of(cut, '\n');
        lemma_last_index_of_bounds(cut, '\n');
        lemma_last_index_of_found(cut, '\n');
        lemma_cut_within(diff, 4000);
        let k = if j >= 0 {
            j
        } else {
            c
        };
        if j >= 0 {
            assert(cut.take(j) =~= diff.take(j));
            assert(cut[j] == diff[j]);
        } else {
            if c == diff.len() {
                assert(diff.take(c) =~= diff);
            }
            assert(c < diff.len());
            assert forall|i: int| 0 <= i < k implies diff[i] != '\n' by {
                assert(cut[i] == diff[i]);
            }
        }
        assert(cut_at_line(diff, 4000) == diff.take(k));
        assert(file_section(name, diff) == head + diff.take(k) + "\n[...truncated]"@ + "\n\n"@);
        lemma_utf8_len_concat(head, diff.take(k));
        lemma_utf8_len_concat(head + diff.take(k), "\n[...truncated]"@);
        lemma_utf8_len_concat(head + diff.take(k) + "\n[...truncated]"@, "\n\n"@);
    }
}

/// The diff context stays within 64000 bytes, unless the overview alone is
/// longer, in which case the context is just the overview.
pub proof fn lemma_diff_context_within_budget(stat: Seq<char>, files: Seq<(Seq<char>, Option<Seq<char>>)>)
    ensures
        utf8_len(overview(stat)) <= max_total_chars() ==> utf8_len(diff_context(stat, files))
            <= max_total_chars(),
        utf8_len(overview(stat)) > max_total_chars() ==> utf8_len(diff_context(stat, files))
            == utf8_len(overview(stat)),
{
    let head = overview(stat);
    let budget: nat = if utf8_len(head) >= max_total_chars() {
        0
    } else {
        (max_total_chars() - utf8_len(head)) as nat
    };
    lemma_sections_within(files, budget);
    lemma_utf8_len_concat(head, file_sections(files, budget));
}

// ───────────────────────── generated texts ─────────────────────────

/// A generated commit message: the trimmed reply, split at its first blank
/// line into a subject and a body, each trimmed.
pub open spec fn commit_response(content: Seq<char>) -> (Seq<char>, Option<Seq<char>>) {
    let t = trim(content);
    let p = find(t, seq!['\n', '\n']);
    if p >= 0 {
        (trim(t.take(p)), Some(trim(t.skip(p + 2))))
    } else {
        (t, None)
    }
}

/// Reads a commit message from the service's reply (`commit_response`).
pub fn parse_commit_message_response(content: &str) -> (r: GeneratedCommitMessage)
    ensures
        r.subject@ == commit_response(content@).0,
        r.body matches Some(b) ==> commit_response(content@).1 == Some(b@),
        r.body is None ==> commit_response(content@).1 is None,
{
    let t = trim_chars(&chars_of(content));
    let sep = vec!['\n', '\n'];
    proof {
        assert(sep@ =~= seq!['\n', '\n']);
    }
    match find_text(&t, &sep) {
        Some(p) => {
            let n = t.len();
            let head = sub_chars(&t, 0, p);
            let tail = sub_chars(&t, p + 2, n);
            proof {
                assert(head@ =~= t@.take(p as int));
                assert(tail@ =~= t@.skip(p + 2));
            }
            GeneratedCommitMessage {
                subject: string_of(&trim_chars(&head)),
                body: Some(string_of(&trim_chars(&tail))),
            }
        },
        None => GeneratedCommitMessage { subject: string_of(&t), body: None },
    }
}

/// A text with every leading occurrence of `p` removed (`str::trim_start_matches`).
pub open spec fn strip_prefixes(s: Seq<char>, p: Seq<char>) -> Seq<char>
    decreases s.len(),
{
    if p.len() > 0 && occurs_at(s, 0, p) {
        strip_prefixes(s.skip(p.len() as int), p)
    } else {
        s
    }
}

/// Whether a line carries the title.
pub open spec fn is_title_line(l: Seq<char>) -> bool {
    occurs_at(l, 0, "TITLE:"@)
}

/// The title of a generated pull request description: the first line that
/// starts with `TITLE:`, without that prefix and trimmed; `Update` when no
/// line does.
pub open spec fn pr_title(content: Seq<char>) -> Seq<char> {
    let ls = lines(content);
    let k = first_where(ls, |l: Seq<char>| is_title_line(l));
    if k < ls.len() {
        trim(strip_prefixes(ls[k], "TITLE:"@))
    } else {
        "Update"@
    }
}

/// The body of a generated pull request description: what follows the first
/// `BODY:`, trimmed; the whole reply when there is none.
pub open spec fn pr_body(content: Seq<char>) -> Seq<char> {
    let p = find(content, "BODY:"@);
    if p >= 0 {
        trim(content.skip(p + "BODY:"@.len()))
    } else {
        content
    }
}

/// Removes every leading occurrence of `p` (`strip_prefixes`).
fn strip_prefixes_exec(s: &Vec<char>, p: &Vec<char>) -> (r: Vec<char>)
    ensures
        r@ == strip_prefixes(s@, p@),
{
    let mut i: usize = 0;
    let n = s.len();
    let m = p.len();
    proof {
        assert(s@.skip(0) =~= s@);
    }
    while m > 0 && i <= n && m <= n - i && matches_at(s, i, p)
        invariant
            n == s@.len(),
            m == p@.len(),
            i <= n,
            strip_prefixes(s@, p@) == strip_prefixes(s@.skip(i as int), p@),
        decreases n - i,
    {
        proof {
            let t = s@.skip(i as int);
            assert(t.subrange(0, m as int) =~= s@.subrange(i as int, i + m));
            assert(t.skip(m as int) =~= s@.skip(i + m));
        }
        i = i + m;
    }
    proof {
        let t = s@.skip(i as int);
        if m > 0 && m <= n - i {
            assert(t.subrange(0, m as int) =~= s@.subrange(i as int, i + m));
        }
        assert(t =~= s@.subrange(i as int, n as int));
    }
    sub_chars(s, i, n)
}

/// Reads a pull request title and description from the service's reply
/// (`pr_title`, `pr_body`).
pub fn parse_pr_description_response(content: &str) -> (r: GeneratedPrDescription)
    ensures
        r.title@ == pr_title(content@),
        r.body@ == pr_body(content@),
{
    let c = chars_of(content);
    let ls = split_lines(&c);
    let prefix = chars_of("TITLE:");
    let ghost pred = |l: Seq<char>| is_title_line(l);
    let mut k: usize = 0;
    while k < ls.len() && !matches_at(&ls[k], 0, &prefix)
        invariant
            k <= ls@.len(),
            prefix@ == "TITLE:"@,
            pred == (|l: Seq<char>| is_title_line(l)),
            forall|j: int| 0 <= j < k ==> !pred(#[trigger] texts(ls@)[j]),
        decreases ls@.len() - k,
    {
        proof {
            assert(texts(ls@)[k as int] == ls@[k as int]@);
        }
        k = k + 1;
    }
    proof {
        if k < ls@.len() {
            assert(texts(ls@)[k as int] == ls@[k as int]@);
        }
        lemma_first_where(texts(ls@), pred, k as int);
    }
    let title = if k < ls.len() {
        trim_chars(&strip_prefixes_exec(&ls[k], &prefix))
    } else {
        chars_of("Update")
    };
    let marker = chars_of("BODY:");
    let body = match find_text(&c, &marker) {
        Some(p) => {
            let n = c.len();
            let rest = sub_chars(&c, p + marker.len(), n);
            proof {
                assert(rest@ =~= c@.skip(p + "BODY:"@.len()));
            }
            trim_chars(&rest)
        },
        None => c,
    };
    GeneratedPrDescription { title: string_of(&title), body: string_of(&body) }
}

/// What the service is asked to describe a pull request from: the commits,
/// then the diff limited to 12000 bytes.
pub open spec fn pr_user_content(commits: Seq<char>, diff: Seq<char>) -> Seq<char> {
    "## Commits\n"@ + commits + "\n\n## Diff\n"@ + truncated_pr_diff(diff)
}

/// Builds the request text for a pull request description (`pr_user_content`).
pub fn pr_description_request(commits: &str, diff: &str) -> (r: String)
    requires
        utf8_len(diff@) > max_pr_diff_chars() ==> is_boundary(diff@, max_pr_diff_chars()),
    ensures
        r@ == pr_user_content(commits@, diff@),
{
    let mut out = chars_of("## Commits\n");
    append_chars(&mut out, &chars_of(commits));
    append_chars(&mut out, &chars_of("\n\n## Diff\n"));
    let d = truncate_pr_diff(diff);
    append_chars(&mut out, &chars_of(d.as_str()));
    string_of(&out)
}

// ───────────────────────── prompts ─────────────────────────

/// The instructions given with a diff context to obtain a commit message.
pub open spec fn commit_prompt() -> Seq<char> {
    "You are an expert at writing concise, meaningful git commit messages.\n\
     You will receive a structured diff context with:\n\
     - An overview section showing git diff --stat (all changed files with insertion/deletion counts)\n\
     - Per-file diff sections for the most important files (noise files like lock files are filtered out)\n\
     - Some file diffs may be truncated (marked with [...truncated]) or omitted entirely, but the overview always lists all files\n\n\
     Given this context, produce a commit message following these rules:\n\
     - First line is the subject: imperative mood, max 72 characters, no trailing period\n\
     - If the change is non-trivial, add a blank line followed by a body explaining the \"why\"\n\
     - Body lines should wrap at 72 characters\n\
     - Use conventional commit prefixes when appropriate (feat, fix, refactor, docs, test, chore)\n\n\
     Output ONLY the commit message, nothing else. No markdown formatting, no code fences."@
}

/// The instructions given with commits and a diff to obtain a pull request
/// title and description.
pub open spec fn pr_prompt() -> Seq<char> {
    "You are an expert at writing clear pull request descriptions.\n\
     Given a list of commits and a diff, produce a PR title and description.\n\n\
     Output format (strictly follow this):\n\
     TITLE: <short PR title, under 70 characters>\n\
     BODY:\n\
     <PR description in markdown with:\n\
     - A brief summary section (2-3 sentences)\n\
     - A bullet list of key changes\n\
     >\n\n\
     Output ONLY in this format, nothing else."@
}

/// The system prompt for commit messages (`commit_prompt`).
pub fn commit_message_system_prompt() -> (r: &'static str)
    ensures
        r@ == commit_prompt(),
{
    "You are an expert at writing concise, meaningful git commit messages.\n\
     You will receive a structured diff context with:\n\
     - An overview section showing git diff --stat (all changed files with insertion/deletion counts)\n\
     - Per-file diff sections for the most important files (noise files like lock files are filtered out)\n\
     - Some file diffs may be truncated (marked with [...truncated]) or omitted entirely, but the overview always lists all files\n\n\
     Given this context, produce a commit message following these rules:\n\
     - First line is the subject: imperative mood, max 72 characters, no trailing period\n\
     - If the change is non-trivial, add a blank line followed by a body explaining the \"why\"\n\
     - Body lines should wrap at 72 characters\n\
     - Use conventional commit prefixes when appropriate (feat, fix, refactor, docs, test, chore)\n\n\
     Output ONLY the commit message, nothing else. No markdown formatting, no code fences."
}

/// The system prompt for pull request descriptions (`pr_prompt`).
pub fn pr_description_system_prompt() -> (r: &'static str)
    ensures
        r@ == pr_prompt(),
{
    "You are an expert at writing clear pull request descriptions.\n\
     Given a list of commits and a diff, produce a PR title and description.\n\n\
     Output format (strictly follow this):\n\
     TITLE: <short PR title, under 70 characters>\n\
     BODY:\n\
     <PR description in markdown with:\n\
     - A brief summary section (2-3 sentences)\n\
     - A bullet list of key changes\n\
     >\n\n\
     Output ONLY in this format, nothing else."
}

// ───────────────────────── chat messages ─────────────────────────

/// One message of a chat completion request.
#[derive(Clone, Debug)]
pub struct ChatMessage {
    pub role: String,
    pub content: String,
}

/// The text of a reply choice, absent when the service sent none.
#[derive(Clone, Debug)]
pub struct ChatResponseMessage {
    pub content: Option<String>,
}

/// One reply choice.
#[derive(Clone, Debug)]
pub struct ChatChoice {
    pub message: ChatResponseMessage,
}

/// The reply of the chat completion service.
#[derive(Clone, Debug)]
pub struct ChatCompletionResponse {
    pub choices: Vec<ChatChoice>,
}

/// The two messages of a request: the system prompt, then the user content.
pub fn chat_messages(system_prompt: &str, user_content: &str) -> (r: Vec<ChatMessage>)
    ensures
        r@.len() == 2,
        r@[0].role@ == "system"@,
        r@[0].content@ == system_prompt@,
        r@[1].role@ == "user"@,
        r@[1].content@ == user_content@,
{
    let mut v: Vec<ChatMessage> = Vec::new();
    v.push(
        ChatMessage {
            role: string_of(&chars_of("system")),
            content: string_of(&chars_of(system_prompt)),
        },
    );
    v.push(
        ChatMessage {
            role: string_of(&chars_of("user")),
            content: string_of(&chars_of(user_content)),
        },
    );
    v
}

/// The error reported when the reply holds no text.
pub open spec fn no_content_message() -> Seq<char> {
    "no response content from Copilot"@
}

/// The text of the first reply choice; an error when there is no choice or
/// the first one holds no text.
pub fn first_choice_content(response: ChatCompletionResponse) -> (r: Result<String, String>)
    ensures
        response.choices@.len() > 0 && response.choices@[0].message.content is Some ==> r
            == Ok::<String, String>(response.choices@[0].message.content->0),
        !(response.choices@.len() > 0 && response.choices@[0].message.content is Some) ==> (r matches Err(
            e,
        ) && e@ == no_content_message()),
{
    let mut choices = response.choices;
    if choices.len() > 0 {
        let first = choices.remove(0);
        match first.message.content {
            Some(c) => {
                return Ok(c);
            },
            None => {},
        }
    }
    Err(string_of(&chars_of("no response content from Copilot")))
}

} // verus!
