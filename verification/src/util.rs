//! Small general-purpose helpers.

use vstd::prelude::*;
use vstd::string::*;

verus! {

/// Exact string comparison by character.
pub fn str_eq(a: &str, b: &str) -> (r: bool)
    ensures
        r == (a@ == b@),
{
    let na = a.unicode_len();
    let nb = b.unicode_len();
    if na != nb {
        return false;
    }
    let mut i: usize = 0;
    while i < na
        invariant
            na as nat == a@.len(),
            na as nat == b@.len(),
            i <= na,
            forall|j: int| 0 <= j < i ==> a@[j] == b@[j],
        decreases na - i,
    {
        let ca = a.get_char(i);
        let cb = b.get_char(i);
        if ca != cb {
            return false;
        }
        i = i + 1;
    }
    proof {
        assert(a@ =~= b@);
    }
    true
}

/// Duplicate a vector of plain values.
pub fn copy_vec<T: Copy>(v: &Vec<T>) -> (r: Vec<T>)
    ensures
        r@ == v@,
{
    let n = v.len();
    let mut r: Vec<T> = Vec::new();
    let mut i: usize = 0;
    while i < n
        invariant
            n == v@.len(),
            i <= n,
            r@ == v@.subrange(0, i as int),
        decreases n - i,
    {
        r.push(v[i]);
        proof {
            assert(r@ =~= v@.subrange(0, i as int + 1));
        }
        i = i + 1;
    }
    proof {
        assert(r@ =~= v@);
    }
    r
}

/// Non-decreasing order.
pub open spec fn spec_sorted(s: Seq<usize>) -> bool {
    forall|a: int, b: int| 0 <= a < b < s.len() ==> s[a] <= s[b]
}

/// Sort in place: repeatedly move the minimum of what is left onto the
/// end of the sorted prefix.  The contents are untouched as a multiset.
pub fn sort_indices(v: &mut Vec<usize>)
    ensures
        spec_sorted(final(v)@),
        final(v)@.to_multiset() == old(v)@.to_multiset(),
{
    broadcast use vstd::seq_lib::group_to_multiset_ensures;
    broadcast use vstd::multiset::group_multiset_axioms;

    let mut rest: Vec<usize> = Vec::new();
    core::mem::swap(&mut rest, v);
    let ghost orig = rest@;
    let mut out: Vec<usize> = Vec::new();
    proof {
        assert(out@.to_multiset().add(rest@.to_multiset()) =~= orig.to_multiset());
    }
    while rest.len() > 0
        invariant
            orig == old(v)@,
            out@.to_multiset().add(rest@.to_multiset()) == orig.to_multiset(),
            spec_sorted(out@),
            forall|a: int, b: int|
                0 <= a < out@.len() && 0 <= b < rest@.len() ==> out@[a] <= rest@[b],
        decreases rest@.len(),
    {
        let n = rest.len();
        let mut m: usize = 0;
        let mut i: usize = 1;
        while i < n
            invariant
                n == rest@.len(),
                n > 0,
                m < i,
                i <= n,
                forall|j: int| 0 <= j < i ==> rest@[m as int] <= rest@[j],
            decreases n - i,
        {
            if rest[i] < rest[m] {
                m = i;
            }
            i = i + 1;
        }
        let ghost old_out = out@;
        let ghost old_rest = rest@;
        let x = rest.remove(m);
        out.push(x);
        proof {
            broadcast use vstd::seq_lib::group_to_multiset_ensures;
            broadcast use vstd::multiset::group_multiset_axioms;

            assert(old_rest.contains(x)) by {
                assert(old_rest[m as int] == x);
            }
            assert(rest@ == old_rest.remove(m as int));
            assert(out@ == old_out.push(x));
            assert(old_rest.remove(m as int).to_multiset() =~= old_rest.to_multiset().remove(x));
            assert(old_out.push(x).to_multiset() =~= old_out.to_multiset().insert(x));
            assert(rest@.to_multiset() =~= old_rest.to_multiset().remove(x));
            assert(out@.to_multiset() =~= old_out.to_multiset().insert(x));
            assert(out@.to_multiset().add(rest@.to_multiset()) =~= orig.to_multiset());
            assert forall|a: int, b: int| 0 <= a < b < out@.len() implies out@[a] <= out@[b] by {
                if b == out@.len() - 1 {
                    assert(out@[a] == old_out[a]);
                    assert(old_out[a] <= old_rest[m as int]);
                }
            }
            assert forall|a: int, b: int|
                0 <= a < out@.len() && 0 <= b < rest@.len() implies out@[a] <= rest@[b] by {
                assert(rest@[b] == if b < m as int {
                    old_rest[b]
                } else {
                    old_rest[b + 1]
                });
                if a < old_out.len() {
                    assert(out@[a] == old_out[a]);
                } else {
                    assert(out@[a] == x);
                }
            }
        }
    }
    core::mem::swap(v, &mut out);
}

/// Whether position `i` occurs in the list.
pub open spec fn spec_pos_listed(removed: Seq<usize>, i: int) -> bool {
    exists|j: int| 0 <= j < removed.len() && #[trigger] removed[j] == i
}

/// The elements of `s` whose positions from `i` on are not listed in
/// `removed`, in order.
pub open spec fn spec_keep_from<T>(s: Seq<T>, removed: Seq<usize>, i: int) -> Seq<T>
    decreases s.len() - i,
{
    if i < 0 || i >= s.len() {
        Seq::empty()
    } else if spec_pos_listed(removed, i) {
        spec_keep_from(s, removed, i + 1)
    } else {
        seq![s[i]] + spec_keep_from(s, removed, i + 1)
    }
}

/// Below the lowest listed position, everything is kept unchanged.
proof fn lemma_keep_prefix<T>(s: Seq<T>, removed: Seq<usize>, i: int, k: int)
    requires
        0 <= i <= k <= s.len(),
        forall|j: int| 0 <= j < removed.len() ==> k <= #[trigger] removed[j],
    ensures
        spec_keep_from(s, removed, i) == s.subrange(i, k) + spec_keep_from(s, removed, k),
    decreases k - i,
{
    if i == k {
        assert(s.subrange(i, k) + spec_keep_from(s, removed, k) =~= spec_keep_from(s, removed, k));
    } else {
        assert(!spec_pos_listed(removed, i)) by {
            if spec_pos_listed(removed, i) {
                let j = choose|j: int| 0 <= j < removed.len() && #[trigger] removed[j] == i;
                assert(k <= removed[j]);
            }
        }
        lemma_keep_prefix(s, removed, i + 1, k);
        assert(s.subrange(i, k) =~= seq![s[i]] + s.subrange(i + 1, k));
        assert(seq![s[i]] + (s.subrange(i + 1, k) + spec_keep_from(s, removed, k)) =~= s.subrange(
            i,
            k,
        ) + spec_keep_from(s, removed, k));
    }
}

/// Removal lists that agree on the positions from `i` on keep the same
/// elements.
proof fn lemma_keep_same<T>(s: Seq<T>, r1: Seq<usize>, r2: Seq<usize>, i: int)
    requires
        forall|p: int| i <= p ==> (#[trigger] spec_pos_listed(r1, p)) == spec_pos_listed(r2, p),
    ensures
        spec_keep_from(s, r1, i) == spec_keep_from(s, r2, i),
    decreases s.len() - i,
{
    if 0 <= i < s.len() {
        assert(spec_pos_listed(r1, i) == spec_pos_listed(r2, i));
        lemma_keep_same(s, r1, r2, i + 1);
    }
}

/// Remove the elements at the listed positions, keeping the order of
/// the rest.  The positions are sorted first and consumed from the
/// highest down, so no removal shifts a position that is still to be
/// removed.
pub fn vec_remove_multiple<T>(vec: &mut Vec<T>, indices: &mut Vec<usize>)
    requires
        old(indices)@.no_duplicates(),
        forall|a: int| 0 <= a < old(indices)@.len() ==> old(indices)@[a] < old(vec)@.len(),
    ensures
        spec_sorted(final(indices)@),
        final(indices)@.to_multiset() == old(indices)@.to_multiset(),
        final(vec)@ == spec_keep_from(old(vec)@, old(indices)@, 0),
{
    broadcast use vstd::seq_lib::group_to_multiset_ensures;

    sort_indices(indices);
    proof {
        old(indices)@.lemma_multiset_has_no_duplicates();
        indices@.lemma_multiset_has_no_duplicates_conv();
        assert forall|a: int| 0 <= a < indices@.len() implies #[trigger] indices@[a]
            < old(vec)@.len() by {
            assert(indices@.contains(indices@[a]));
            assert(indices@.to_multiset().count(indices@[a]) > 0);
            assert(old(indices)@.to_multiset().count(indices@[a]) > 0);
            assert(old(indices)@.contains(indices@[a]));
            let j = choose|j: int|
                0 <= j < old(indices)@.len() && old(indices)@[j] == indices@[a];
            assert(old(indices)@[j] < old(vec)@.len());
        }
    }
    let ghost sorted = indices@;
    let ghost orig = vec@;
    let mut t = indices.len();
    proof {
        assert(forall|j: int|
            0 <= j < sorted.skip(t as int).len() ==> orig.len() <= #[trigger] sorted.skip(
                t as int,
            )[j]);
        lemma_keep_prefix(orig, sorted.skip(t as int), 0, orig.len() as int);
        assert(orig.subrange(0, orig.len() as int) + spec_keep_from(
            orig,
            sorted.skip(t as int),
            orig.len() as int,
        ) =~= orig);
    }
    while t > 0
        invariant
            t <= indices@.len(),
            indices@ == sorted,
            spec_sorted(sorted),
            sorted.no_duplicates(),
            orig == old(vec)@,
            forall|a: int| 0 <= a < sorted.len() ==> #[trigger] sorted[a] < orig.len(),
            vec@ == spec_keep_from(orig, sorted.skip(t as int), 0),
        decreases t,
    {
        t = t - 1;
        let p = indices[t];
        proof {
            // every position still removed sits strictly above p
            assert forall|j: int| 0 <= j < sorted.skip(t as int + 1).len() implies p as int + 1
                <= #[trigger] sorted.skip(t as int + 1)[j] by {
                assert(sorted.skip(t as int + 1)[j] == sorted[t as int + 1 + j]);
                assert(sorted[t as int] <= sorted[t as int + 1 + j]);
                assert(sorted[t as int] != sorted[t as int + 1 + j]);
            }
            lemma_keep_prefix(orig, sorted.skip(t as int + 1), 0, p as int + 1);
            assert(vec@.len() == p as int + 1 + spec_keep_from(
                orig,
                sorted.skip(t as int + 1),
                p as int + 1,
            ).len());
            assert(vec@[p as int] == orig[p as int]);
        }
        let _removed = vec.remove(p);
        proof {
            let tail = spec_keep_from(orig, sorted.skip(t as int + 1), p as int + 1);
            assert(vec@ =~= orig.subrange(0, p as int) + tail);
            // the same-suffix removal lists agree above p
            assert forall|q: int| p as int + 1 <= q implies (#[trigger] spec_pos_listed(
                sorted.skip(t as int),
                q,
            )) == spec_pos_listed(sorted.skip(t as int + 1), q) by {
                if spec_pos_listed(sorted.skip(t as int), q) {
                    let j = choose|j: int|
                        0 <= j < sorted.skip(t as int).len() && #[trigger] sorted.skip(
                            t as int,
                        )[j] == q;
                    assert(sorted.skip(t as int)[j] == sorted[t as int + j]);
                    if j == 0 {
                        assert(sorted[t as int] == p);
                        assert(false);
                    } else {
                        assert(sorted.skip(t as int + 1)[j - 1] == q);
                        assert(spec_pos_listed(sorted.skip(t as int + 1), q));
                    }
                }
                if spec_pos_listed(sorted.skip(t as int + 1), q) {
                    let j = choose|j: int|
                        0 <= j < sorted.skip(t as int + 1).len() && #[trigger] sorted.skip(
                            t as int + 1,
                        )[j] == q;
                    assert(sorted.skip(t as int)[j + 1] == q);
                    assert(spec_pos_listed(sorted.skip(t as int), q));
                }
            }
            lemma_keep_same(orig, sorted.skip(t as int), sorted.skip(t as int + 1), p as int + 1);
            // position p itself is removed in the longer list
            assert(sorted.skip(t as int)[0] == sorted[t as int]);
            assert(spec_pos_listed(sorted.skip(t as int), p as int));
            assert forall|j: int| 0 <= j < sorted.skip(t as int).len() implies p as int
                <= #[trigger] sorted.skip(t as int)[j] by {
                assert(sorted.skip(t as int)[j] == sorted[t as int + j]);
                assert(sorted[t as int] <= sorted[t as int + j]);
            }
            lemma_keep_prefix(orig, sorted.skip(t as int), 0, p as int);
            assert(spec_keep_from(orig, sorted.skip(t as int), p as int) == spec_keep_from(
                orig,
                sorted.skip(t as int),
                p as int + 1,
            ));
            assert(vec@ =~= orig.subrange(0, p as int) + spec_keep_from(
                orig,
                sorted.skip(t as int),
                p as int,
            ));
        }
    }
    proof {
        assert(sorted.skip(0) =~= sorted);
        assert forall|q: int| 0 <= q implies (#[trigger] spec_pos_listed(sorted, q))
            == spec_pos_listed(old(indices)@, q) by {
            broadcast use vstd::seq_lib::group_to_multiset_ensures;

            if spec_pos_listed(sorted, q) {
                let j = choose|j: int| 0 <= j < sorted.len() && #[trigger] sorted[j] == q;
                assert(sorted.contains(sorted[j]));
                assert(sorted.to_multiset().count(sorted[j]) > 0);
                assert(old(indices)@.to_multiset().count(sorted[j]) > 0);
                assert(old(indices)@.contains(sorted[j]));
                let j2 = choose|j2: int|
                    0 <= j2 < old(indices)@.len() && #[trigger] old(indices)@[j2] == sorted[j];
                assert(old(indices)@[j2] == q);
                assert(spec_pos_listed(old(indices)@, q));
            }
            if spec_pos_listed(old(indices)@, q) {
                let j = choose|j: int|
                    0 <= j < old(indices)@.len() && #[trigger] old(indices)@[j] == q;
                assert(old(indices)@.contains(old(indices)@[j]));
                assert(old(indices)@.to_multiset().count(old(indices)@[j]) > 0);
                assert(sorted.to_multiset().count(old(indices)@[j]) > 0);
                assert(sorted.contains(old(indices)@[j]));
                let j2 = choose|j2: int|
                    0 <= j2 < sorted.len() && #[trigger] sorted[j2] == old(indices)@[j];
                assert(sorted[j2] == q);
                assert(spec_pos_listed(sorted, q));
            }
        }
        // negative positions are listed in neither
        assert(forall|q: int|
            q < 0 ==> !(#[trigger] spec_pos_listed(sorted, q)) && !spec_pos_listed(
                old(indices)@,
                q,
            ));
        lemma_keep_same(orig, sorted, old(indices)@, 0);
    }
}

} // verus!
