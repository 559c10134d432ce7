//! Orders on texts and on paths.
//!
//! Texts compare character by character (which is also the byte order of
//! their UTF-8 encodings); paths compare component by component, as
//! `std::path::Path` does on Unix.
use vstd::prelude::*;

use crate::text::{split_on, split_pattern, texts};

verus! {

/// Lexicographic `<=` on texts.
pub open spec fn lex_le(a: Seq<char>, b: Seq<char>) -> bool
    decreases a.len(),
{
    if a.len() == 0 {
        true
    } else if b.len() == 0 {
        false
    } else if a[0] != b[0] {
        a[0] < b[0]
    } else {
        lex_le(a.drop_first(), b.drop_first())
    }
}

/// `lex_le` is reflexive, total, antisymmetric and transitive.
pub proof fn lemma_lex_le_order(a: Seq<char>, b: Seq<char>, c: Seq<char>)
    ensures
        lex_le(a, a),
        lex_le(a, b) || lex_le(b, a),
        lex_le(a, b) && lex_le(b, a) ==> a == b,
        lex_le(a, b) && lex_le(b, c) ==> lex_le(a, c),
    decreases a.len(),
{
    if a.len() > 0 {
        lemma_lex_le_order(a.drop_first(), a.drop_first(), a.drop_first());
        if b.len() > 0 {
            if c.len() > 0 {
                lemma_lex_le_order(a.drop_first(), b.drop_first(), c.drop_first());
            } else {
                lemma_lex_le_order(a.drop_first(), b.drop_first(), b.drop_first());
            }
            if a[0] == b[0] && lex_le(a, b) && lex_le(b, a) {
                assert(a.drop_first() == b.drop_first());
                assert(a =~= seq![a[0]] + a.drop_first());
                assert(b =~= seq![b[0]] + b.drop_first());
            }
        }
    } else {
        if lex_le(b, a) {
            assert(b.len() == 0);
            assert(a =~= b);
        }
    }
}

/// Lexicographic comparison of texts.
pub fn text_le(a: &Vec<char>, b: &Vec<char>) -> (r: bool)
    ensures
        r == lex_le(a@, b@),
{
    let mut i: usize = 0;
    proof {
        assert(a@.skip(0) =~= a@);
        assert(b@.skip(0) =~= b@);
    }
    while i < a.len() && i < b.len() && a[i] == b[i]
        invariant
            i <= a@.len(),
            i <= b@.len(),
            lex_le(a@, b@) == lex_le(a@.skip(i as int), b@.skip(i as int)),
        decreases a@.len() - i,
    {
        proof {
            assert(a@.skip(i as int).drop_first() =~= a@.skip(i + 1));
            assert(b@.skip(i as int).drop_first() =~= b@.skip(i + 1));
        }
        i = i + 1;
    }
    if i == a.len() {
        true
    } else if i == b.len() {
        false
    } else {
        a[i] < b[i]
    }
}

// ───────────────────────── paths ─────────────────────────

/// The non-empty pieces, in order.
pub open spec fn nonempty_pieces<T>(ps: Seq<Seq<T>>) -> Seq<Seq<T>>
    decreases ps.len(),
{
    if ps.len() == 0 {
        Seq::empty()
    } else if ps.last().len() == 0 {
        nonempty_pieces(ps.drop_last())
    } else {
        nonempty_pieces(ps.drop_last()).push(ps.last())
    }
}

/// The root component of an absolute path.
pub open spec fn root_comp() -> Seq<char> {
    seq!['/']
}

/// The component naming the current directory.
pub open spec fn cur_comp() -> Seq<char> {
    seq!['.']
}

/// The component naming the parent directory.
pub open spec fn parent_comp() -> Seq<char> {
    seq!['.', '.']
}

/// The pieces between separators that stand for a component: all but the
/// empty ones and `.`, in order.
pub open spec fn named_pieces(ps: Seq<Seq<char>>) -> Seq<Seq<char>>
    decreases ps.len(),
{
    if ps.len() == 0 {
        Seq::empty()
    } else if ps.last().len() == 0 || ps.last() == cur_comp() {
        named_pieces(ps.drop_last())
    } else {
        named_pieces(ps.drop_last()).push(ps.last())
    }
}

/// The components of a path, as `Path::components` gives them on Unix: the
/// root first for a path starting with `/`; otherwise `.` first when the path
/// is `.` or starts with `./`; then each piece between separators except the
/// empty ones and `.` (so `..` is kept).
pub open spec fn components(p: Seq<char>) -> Seq<Seq<char>> {
    let ps = split_on(p, seq!['/']);
    let lead = if p.len() > 0 && p[0] == '/' {
        seq![root_comp()]
    } else if ps.len() > 0 && ps[0] == cur_comp() {
        seq![cur_comp()]
    } else {
        Seq::empty()
    };
    lead + named_pieces(ps)
}

/// The kind of a component, in the order in which paths sort them: the
/// root, then `.`, then `..`, then names.
pub open spec fn comp_rank(c: Seq<char>) -> int {
    if c == root_comp() {
        0
    } else if c == cur_comp() {
        1
    } else if c == parent_comp() {
        2
    } else {
        3
    }
}

/// Order on components: by kind, then names character by character.
pub open spec fn comp_le(a: Seq<char>, b: Seq<char>) -> bool {
    if comp_rank(a) != comp_rank(b) {
        comp_rank(a) < comp_rank(b)
    } else {
        lex_le(a, b)
    }
}

/// `comp_le` is reflexive, total, antisymmetric and transitive.
pub proof fn lemma_comp_le_order(a: Seq<char>, b: Seq<char>, c: Seq<char>)
    ensures
        comp_le(a, a),
        comp_le(a, b) || comp_le(b, a),
        comp_le(a, b) && comp_le(b, a) ==> a == b,
        comp_le(a, b) && comp_le(b, c) ==> comp_le(a, c),
{
    lemma_lex_le_order(a, b, c);
    lemma_lex_le_order(b, a, c);
}

/// Lexicographic `<=` on component lists.
pub open spec fn comps_le(a: Seq<Seq<char>>, b: Seq<Seq<char>>) -> bool
    decreases a.len(),
{
    if a.len() == 0 {
        true
    } else if b.len() == 0 {
        false
    } else if a[0] != b[0] {
        comp_le(a[0], b[0])
    } else {
        comps_le(a.drop_first(), b.drop_first())
    }
}

/// `comps_le` is reflexive, total, antisymmetric and transitive.
pub proof fn lemma_comps_le_order(a: Seq<Seq<char>>, b: Seq<Seq<char>>, c: Seq<Seq<char>>)
    ensures
        comps_le(a, a),
        comps_le(a, b) || comps_le(b, a),
        comps_le(a, b) && comps_le(b, a) ==> a == b,
        comps_le(a, b) && comps_le(b, c) ==> comps_le(a, c),
    decreases a.len(),
{
    if a.len() > 0 {
        lemma_comps_le_order(a.drop_first(), a.drop_first(), a.drop_first());
        if b.len() > 0 {
            lemma_comp_le_order(a[0], b[0], b[0]);
            if c.len() > 0 {
                lemma_comps_le_order(a.drop_first(), b.drop_first(), c.drop_first());
                lemma_comp_le_order(a[0], b[0], c[0]);
                lemma_comp_le_order(b[0], c[0], a[0]);
                lemma_comp_le_order(c[0], a[0], b[0]);
            } else {
                lemma_comps_le_order(a.drop_first(), b.drop_first(), b.drop_first());
            }
            if a[0] == b[0] && comps_le(a, b) && comps_le(b, a) {
                assert(a =~= seq![a[0]] + a.drop_first());
                assert(b =~= seq![b[0]] + b.drop_first());
            }
        }
    } else {
        if comps_le(b, a) {
            assert(a =~= b);
        }
    }
}

/// Path order: component by component.
pub open spec fn path_le(p: Seq<char>, q: Seq<char>) -> bool {
    comps_le(components(p), components(q))
}

/// `path_le` is a total preorder.
pub proof fn lemma_path_le_preorder()
    ensures
        crate::sort::total_preorder(|p: Seq<char>, q: Seq<char>| path_le(p, q)),
{
    assert forall|x: Seq<char>, y: Seq<char>, z: Seq<char>|
        path_le(x, y) && path_le(y, z) implies path_le(x, z) by {
        lemma_comps_le_order(components(x), components(y), components(z));
    }
    assert forall|x: Seq<char>, y: Seq<char>| path_le(x, y) || path_le(y, x) by {
        lemma_comps_le_order(components(x), components(y), components(y));
    }
    assert forall|x: Seq<char>| path_le(x, x) by {
        lemma_comps_le_order(components(x), components(x), components(x));
    }
}

fn is_cur_piece(c: &Vec<char>) -> (r: bool)
    ensures
        r == (c@ == cur_comp()),
{
    if c.len() == 1 && c[0] == '.' {
        assert(c@ =~= cur_comp());
        true
    } else {
        false
    }
}

/// The kind of a component (`comp_rank`).
fn comp_rank_exec(c: &Vec<char>) -> (r: u8)
    ensures
        r == comp_rank(c@),
{
    if c.len() == 1 && c[0] == '/' {
        assert(c@ =~= root_comp());
        0
    } else if c.len() == 1 && c[0] == '.' {
        assert(c@ =~= cur_comp());
        1
    } else if c.len() == 2 && c[0] == '.' && c[1] == '.' {
        assert(c@ =~= parent_comp());
        2
    } else {
        proof {
            if c@ == root_comp() {
                assert(c@[0] == '/');
            }
            if c@ == parent_comp() {
                assert(c@[1] == '.');
            }
        }
        3
    }
}

/// Whether component `a` sorts no later than component `b` (`comp_le`).
fn comp_le_exec(a: &Vec<char>, b: &Vec<char>) -> (r: bool)
    ensures
        r == comp_le(a@, b@),
{
    let ra = comp_rank_exec(a);
    let rb = comp_rank_exec(b);
    if ra != rb {
        ra < rb
    } else {
        text_le(a, b)
    }
}

/// The components of a path (`components`).
pub fn path_components(p: &Vec<char>) -> (r: Vec<Vec<char>>)
    ensures
        texts(r@) == components(p@),
{
    let sep = vec!['/'];
    proof {
        assert(sep@ =~= seq!['/']);
        crate::text::lemma_split_on_nonempty(p@, seq!['/']);
    }
    let pieces = split_pattern(p, &sep);
    let mut out: Vec<Vec<char>> = Vec::new();
    if p.len() > 0 && p[0] == '/' {
        let root = vec!['/'];
        out.push(root);
        proof {
            assert(texts(out@) =~= seq![root_comp()]);
        }
    } else {
        proof {
            assert(texts(pieces@)[0] == pieces@[0]@);
        }
        if is_cur_piece(&pieces[0]) {
            let cur = vec!['.'];
            proof {
                assert(cur@ =~= cur_comp());
            }
            out.push(cur);
            proof {
                assert(texts(out@) =~= seq![cur_comp()]);
            }
        } else {
            proof {
                assert(texts(out@) =~= Seq::<Seq<char>>::empty());
            }
        }
    }
    let ghost lead = texts(out@);
    let mut i: usize = 0;
    proof {
        assert(texts(pieces@).take(0) =~= Seq::<Seq<char>>::empty());
        assert(texts(out@) =~= lead + named_pieces(texts(pieces@).take(0)));
    }
    while i < pieces.len()
        invariant
            i <= pieces@.len(),
            texts(pieces@) == split_on(p@, seq!['/']),
            texts(out@) == lead + named_pieces(texts(pieces@).take(i as int)),
        decreases pieces@.len() - i,
    {
        proof {
            let t = texts(pieces@).take(i + 1);
            assert(t.drop_last() =~= texts(pieces@).take(i as int));
            assert(t.last() == pieces@[i as int]@);
        }
        if pieces[i].len() > 0 && !is_cur_piece(&pieces[i]) {
            let piece = crate::text::copy_chars(&pieces[i]);
            let ghost before = out@;
            out.push(piece);
            proof {
                assert(texts(out@) =~= texts(before).push(piece@));
            }
        }
        i = i + 1;
    }
    proof {
        assert(texts(pieces@).take(i as int) =~= texts(pieces@));
    }
    out
}

/// Whether path `p` sorts no later than path `q`.
pub fn path_le_exec(p: &String, q: &String) -> (r: bool)
    ensures
        r == path_le(p@, q@),
{
    let pc = path_components(&crate::text::chars_of(p.as_str()));
    let qc = path_components(&crate::text::chars_of(q.as_str()));
    let mut i: usize = 0;
    proof {
        assert(texts(pc@).skip(0) =~= texts(pc@));
        assert(texts(qc@).skip(0) =~= texts(qc@));
    }
    while i < pc.len() && i < qc.len() && crate::text::chars_eq(&pc[i], &qc[i])
        invariant
            i <= pc@.len(),
            i <= qc@.len(),
            comps_le(texts(pc@), texts(qc@)) == comps_le(
                texts(pc@).skip(i as int),
                texts(qc@).skip(i as int),
            ),
        decreases pc@.len() - i,
    {
        proof {
            assert(texts(pc@).skip(i as int).drop_first() =~= texts(pc@).skip(i + 1));
            assert(texts(qc@).skip(i as int).drop_first() =~= texts(qc@).skip(i + 1));
            assert(texts(pc@).skip(i as int)[0] == pc@[i as int]@);
            assert(texts(qc@).skip(i as int)[0] == qc@[i as int]@);
        }
        i = i + 1;
    }
    if i == pc.len() {
        true
    } else if i == qc.len() {
        false
    } else {
        proof {
            assert(texts(pc@).skip(i as int)[0] == pc@[i as int]@);
            assert(texts(qc@).skip(i as int)[0] == qc@[i as int]@);
        }
        comp_le_exec(&pc[i], &qc[i])
    }
}

} // verus!
