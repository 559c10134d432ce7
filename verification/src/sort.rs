//! A stable insertion sort driven by a comparison function, proved to return
//! a sorted permutation of its input.
use vstd::prelude::*;
use vstd::multiset::Multiset;
use vstd::relations::sorted_by;

use crate::search::{first_where, lemma_first_where};

verus! {

broadcast use vstd::multiset::group_multiset_axioms;

/// A total preorder: reflexive, transitive and total (ties are allowed).
pub open spec fn total_preorder<T>(le: spec_fn(T, T) -> bool) -> bool {
    &&& forall|x: T| #[trigger] le(x, x)
    &&& forall|x: T, y: T, z: T| #[trigger] le(x, y) && #[trigger] le(y, z) ==> le(x, z)
    &&& forall|x: T, y: T| #[trigger] le(x, y) || #[trigger] le(y, x)
}

/// The views of the elements of a sequence.
pub open spec fn views<T: View>(s: Seq<T>) -> Seq<T::V> {
    s.map_values(|x: T| x@)
}

/// `x` placed before the first element of `t` that it sorts no later than.
pub open spec fn insert_sorted<A>(x: A, t: Seq<A>, le: spec_fn(A, A) -> bool) -> Seq<A> {
    t.insert(first_where(t, |y: A| le(x, y)), x)
}

/// The insertion sort of `s` in the order `le`: the elements sorted, those
/// that compare equal in the order they came in.
pub open spec fn insertion_sorted<A>(s: Seq<A>, le: spec_fn(A, A) -> bool) -> Seq<A>
    decreases s.len(),
{
    if s.len() == 0 {
        Seq::empty()
    } else {
        insert_sorted(s[0], insertion_sorted(s.drop_first(), le), le)
    }
}

/// Sorts `v` in the order `le` (an executable comparison that computes the
/// total preorder `spec_le` on views); elements that compare equal keep their order.
pub fn sort_by_le<T: View, F: Fn(&T, &T) -> bool>(
    v: Vec<T>,
    le: F,
    Ghost(spec_le): Ghost<spec_fn(T::V, T::V) -> bool>,
) -> (r: Vec<T>)
    requires
        total_preorder(spec_le),
        forall|a: &T, b: &T| #[trigger] le.requires((a, b)),
        forall|a: &T, b: &T, res: bool| le.ensures((a, b), res) ==> res == spec_le(a@, b@),
    ensures
        views(r@) == insertion_sorted(views(v@), spec_le),
        views(r@).to_multiset() == views(v@).to_multiset(),
        r@.len() == v@.len(),
        sorted_by(views(r@), spec_le),
{
    broadcast use vstd::seq_lib::group_to_multiset_ensures;

    let mut rest = v;
    let mut out: Vec<T> = Vec::new();
    while rest.len() > 0
        invariant
            total_preorder(spec_le),
            forall|a: &T, b: &T| #[trigger] le.requires((a, b)),
            forall|a: &T, b: &T, res: bool| le.ensures((a, b), res) ==> res == spec_le(a@, b@),
            views(out@).to_multiset().add(views(rest@).to_multiset()) == views(v@).to_multiset(),
            out@.len() + rest@.len() == v@.len(),
            sorted_by(views(out@), spec_le),
            rest@ == v@.take(rest@.len() as int),
            views(out@) == insertion_sorted(views(v@.skip(rest@.len() as int)), spec_le),
        decreases rest@.len(),
    {
        let ghost before_rest = rest@;
        let ghost before_sorted = views(out@);
        let x = rest.pop().unwrap();
        proof {
            assert(before_rest =~= rest@.push(x));
        }
        let mut pos: usize = 0;
        while pos < out.len() && !le(&x, &out[pos])
            invariant
                pos <= out@.len(),
                forall|a: &T, b: &T| #[trigger] le.requires((a, b)),
                forall|a: &T, b: &T, res: bool| le.ensures((a, b), res) ==> res == spec_le(
                    a@,
                    b@,
                ),
                forall|j: int| 0 <= j < pos ==> !spec_le(x@, #[trigger] out@[j]@),
            decreases out@.len() - pos,
        {
            pos = pos + 1;
        }
        let ghost before_out = views(out@);
        let ghost xv = x@;
        let ghost xt = x;
        proof {
            assert forall|j: int| 0 <= j < pos implies !(|y: T::V| spec_le(xv, y))(
                #[trigger] before_sorted[j],
            ) by {
                assert(before_sorted[j] == out@[j]@);
            }
            if pos < out@.len() {
                assert(before_sorted[pos as int] == out@[pos as int]@);
            }
            lemma_first_where(before_sorted, |y: T::V| spec_le(xv, y), pos as int);
        }
        out.insert(pos, x);
        proof {
            let n = rest@.len() as int;
            let suffix = views(v@.skip(n));
            assert(rest@ =~= v@.take(n));
            assert(xt == v@[n]);
            assert(suffix.drop_first() =~= views(v@.skip(n + 1)));
            assert(suffix[0] == xv);
            assert(views(out@) =~= insert_sorted(xv, before_sorted, spec_le));
            assert(views(out@) == insertion_sorted(suffix, spec_le));
            let vo = views(out@);
            assert(vo =~= before_out.insert(pos as int, xv));
            assert forall|i: int, j: int| 0 <= i < j < vo.len() implies #[trigger] spec_le(
                vo[i],
                vo[j],
            ) by {
                if j < pos {
                    assert(vo[i] == before_out[i] && vo[j] == before_out[j]);
                } else if j == pos {
                    assert(vo[i] == before_out[i]);
                    assert(!spec_le(xv, before_out[i]));
                    assert(spec_le(before_out[i], xv) || spec_le(xv, before_out[i]));
                } else if i == pos {
                    assert(vo[j] == before_out[j - 1]);
                    assert(spec_le(xv, before_out[pos as int]));
                    if j - 1 > pos {
                        assert(spec_le(before_out[pos as int], before_out[j - 1]));
                    }
                } else if i < pos {
                    assert(vo[i] == before_out[i] && vo[j] == before_out[j - 1]);
                } else {
                    assert(vo[i] == before_out[i - 1] && vo[j] == before_out[j - 1]);
                }
            }
            let l = before_out.take(pos as int);
            let r = before_out.skip(pos as int);
            assert(before_out =~= l + r);
            assert(vo =~= l.push(xv) + r);
            vstd::seq_lib::lemma_multiset_commutative(l, r);
            vstd::seq_lib::lemma_multiset_commutative(l.push(xv), r);
            l.to_multiset_ensures();
            assert(l.push(xv).to_multiset() =~= l.to_multiset().insert(xv));
            assert(vo.to_multiset() =~= before_out.to_multiset().insert(xv));
            let vr = views(rest@);
            vr.to_multiset_ensures();
            assert(views(before_rest) =~= vr.push(xv));
            assert(views(before_rest).to_multiset() =~= vr.to_multiset().insert(xv));
            assert(vo.to_multiset().add(vr.to_multiset()) =~= before_out.to_multiset().add(
                views(before_rest).to_multiset(),
            ));
        }
    }
    proof {
        assert(v@.skip(0) =~= v@);
        assert(views(rest@).to_multiset() =~= Multiset::empty());
        assert(views(out@).to_multiset().add(views(rest@).to_multiset()) =~= views(
            out@,
        ).to_multiset());
    }
    out
}

} // verus!
